use vstd::prelude::*;
use vstd::string::StringExecFns;

verus! {

/// What is shown as a short text.
pub trait Text {
    spec fn text(&self) -> Seq<char>;

    fn to_text(&self) -> (r: String)
        ensures
            r@ == self.text(),
    ;
}

/// The texts, each but the first with `delimiter` before it.
pub open spec fn joined(texts: Seq<Seq<char>>, delimiter: Seq<char>) -> Seq<char>
    decreases texts.len(),
{
    if texts.len() == 0 {
        Seq::empty()
    } else if texts.len() == 1 {
        texts[0]
    } else {
        joined(texts.drop_last(), delimiter) + delimiter + texts.last()
    }
}

/// A list of things that is shown on one line.
pub trait DisplaySlice {
    spec fn texts(&self) -> Seq<Seq<char>>;

    /// The texts of the items, with a comma and a space between them.
    fn to_delimited_string(&self) -> (r: String)
        ensures
            r@ == joined(self.texts(), ", "@),
    ;
}

impl<T: Text> DisplaySlice for [T] {
    open spec fn texts(&self) -> Seq<Seq<char>> {
        self@.map_values(|item: T| item.text())
    }

    fn to_delimited_string(&self) -> (r: String) {
        let mut line = String::from_str("");
        let mut i: usize = 0;
        proof {
            reveal_strlit("");
            assert(self.texts().subrange(0, 0) =~= Seq::empty());
        }
        while i < self.len()
            invariant
                i <= self@.len(),
                line@ == joined(self.texts().subrange(0, i as int), ", "@),
            decreases self.len() - i,
        {
            let text = self[i].to_text();
            proof {
                let before = self.texts().subrange(0, i as int);
                let after = self.texts().subrange(0, i + 1);
                assert(after.drop_last() =~= before);
                assert(after.last() == text@);
                if before.len() == 0 {
                    assert(after.len() == 1);
                    assert(after[0] == text@);
                }
            }
            if i > 0 {
                line.append(", ");
            } else {
                proof {
                    assert(line@ + text@ =~= text@);
                }
            }
            line.append(text.as_str());
            i += 1;
        }
        assert(self.texts().subrange(0, i as int) =~= self.texts());
        line
    }
}

impl<T: Text> DisplaySlice for Vec<T> {
    open spec fn texts(&self) -> Seq<Seq<char>> {
        self@.map_values(|item: T| item.text())
    }

    fn to_delimited_string(&self) -> (r: String) {
        self.as_slice().to_delimited_string()
    }
}

} // verus!
