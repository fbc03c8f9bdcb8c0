use crate::clock::{local_time_of_day, since_unix_epoch};
use vstd::prelude::*;
use vstd::string::StringExecFns;

verus! {

/// The log shown in the status bar: a heading followed by the entries in the
/// order in which they were reported. Its view is the whole text.
#[derive(Debug, Clone, PartialEq, Eq)]
pub struct StatusMsg {
    msg: String,
}

impl View for StatusMsg {
    type V = Seq<char>;

    closed spec fn view(&self) -> Seq<char> {
        self.msg@
    }
}

/// The text of a log without entries.
pub open spec fn starter_text() -> Seq<char> {
    "Status Messages"@
}

/// What stands between two entries.
pub open spec fn separator() -> Seq<char> {
    "\n------\n"@
}

/// An informational entry reported at `time`.
pub open spec fn info_entry(time: Seq<char>, msg: Seq<char>) -> Seq<char> {
    "["@ + time + " INFO ] "@ + msg
}

/// An error entry reported at `time`.
pub open spec fn error_entry(time: Seq<char>, msg: Seq<char>) -> Seq<char> {
    "["@ + time + " ERROR] "@ + msg
}

/// Whether `after` is `before` with one more entry, which reports `msg` as
/// information at some time of day.
pub open spec fn reported_info(before: Seq<char>, after: Seq<char>, msg: Seq<char>) -> bool {
    exists|time: Seq<char>| after == before + separator() + #[trigger] info_entry(time, msg)
}

/// Whether `after` is `before` with one more entry, which reports `msg` as an
/// error at some time of day.
pub open spec fn reported_error(before: Seq<char>, after: Seq<char>, msg: Seq<char>) -> bool {
    exists|time: Seq<char>| after == before + separator() + #[trigger] error_entry(time, msg)
}

/// The entries of a log with the text `text`: what follows its heading.
pub open spec fn entries_of(text: Seq<char>) -> Seq<char> {
    if text.len() >= starter_text().len() {
        text.skip(starter_text().len() as int)
    } else {
        Seq::empty()
    }
}

impl Default for StatusMsg {
    fn default() -> (r: Self)
        ensures
            r@ == starter_text(),
    {
        Self { msg: Self::starter_msg() }
    }
}

impl StatusMsg {
    /// The local time of day as `HH:MM:SS`, or question marks in its place
    /// where the clock cannot be read.
    fn msg_time() -> (r: String)
        ensures
            is_time_of_day(r@) || r@ == unknown_time(),
    {
        let shown = match Self::seconds_of(since_unix_epoch()) {
            Some(secs) => local_time_of_day(secs),
            None => None,
        };
        Self::time_or_unknown(shown)
    }

    /// The whole seconds of a reading of the clock, where there is a reading
    /// and a signed number holds them.
    fn seconds_of(reading: Option<(u64, u32)>) -> (r: Option<i64>)
        ensures
            r == (match reading {
                Some(elapsed) => if elapsed.0 <= 0x7fff_ffff_ffff_ffff {
                    Some(elapsed.0 as i64)
                } else {
                    None
                },
                None => None,
            }),
    {
        match reading {
            Some((secs, _)) => {
                if secs <= 0x7fff_ffff_ffff_ffff {
                    Some(secs as i64)
                } else {
                    None
                }
            },
            None => None,
        }
    }

    /// The time of day as it is shown: the text, or question marks in its
    /// place where there is none.
    fn time_or_unknown(time: Option<String>) -> (r: String)
        ensures
            r@ == (match time {
                Some(text) => text@,
                None => unknown_time(),
            }),
    {
        match time {
            Some(text) => text,
            None => String::from_str("??:??:??"),
        }
    }

    fn add_msg(&mut self, msg: &str)
        ensures
            final(self)@ == old(self)@ + separator() + msg@,
    {
        self.msg.append("\n------\n");
        self.msg.append(msg);
    }

    /// Appends an informational entry that carries the given time.
    pub fn info_at(&mut self, time: &str, msg: &str)
        ensures
            final(self)@ == old(self)@ + separator() + info_entry(time@, msg@),
    {
        let mut entry = String::from_str("[");
        entry.append(time);
        entry.append(" INFO ] ");
        entry.append(msg);
        self.add_msg(entry.as_str());
    }

    /// Appends an error entry that carries the given time.
    pub fn error_at(&mut self, time: &str, msg: &str)
        ensures
            final(self)@ == old(self)@ + separator() + error_entry(time@, msg@),
    {
        let mut entry = String::from_str("[");
        entry.append(time);
        entry.append(" ERROR] ");
        entry.append(msg);
        self.add_msg(entry.as_str());
    }

    /// Appends an informational entry stamped with the time of day.
    pub fn info(&mut self, msg: &str)
        ensures
            reported_info(old(self)@, final(self)@, msg@),
    {
        let time = Self::msg_time();
        self.info_at(time.as_str(), msg);
    }

    /// Appends an error entry stamped with the time of day. `msg` is the debug
    /// rendering of what went wrong.
    pub fn error_debug(&mut self, msg: &str)
        ensures
            reported_error(old(self)@, final(self)@, msg@),
    {
        let time = Self::msg_time();
        self.error_at(time.as_str(), msg);
    }

    /// Appends an error entry stamped with the time of day.
    pub fn error_display(&mut self, msg: &str)
        ensures
            reported_error(old(self)@, final(self)@, msg@),
    {
        let time = Self::msg_time();
        self.error_at(time.as_str(), msg);
    }

    /// Appends the entries of `other`, as they are, after the entries of this
    /// log.
    pub fn absorb(&mut self, other: &StatusMsg)
        ensures
            final(self)@ == old(self)@ + entries_of(other@),
    {
        proof {
            reveal_strlit("Status Messages");
        }
        let text = other.msg.as_str();
        let len = text.unicode_len();
        if len >= 15 {
            self.msg.append(text.substring_char(15, len));
        } else {
            assert(self@ + Seq::<char>::empty() =~= self@);
        }
    }

    /// The whole text.
    pub fn msg(&self) -> (r: String)
        ensures
            r@ == self@,
    {
        self.msg.clone()
    }

    pub fn clear(&mut self)
        ensures
            final(self)@ == starter_text(),
    {
        *self = Self::default()
    }

    /// Whether nothing has been reported since the log was made or cleared.
    pub fn is_empty(&self) -> (r: bool)
        ensures
            r == (self@ == starter_text()),
    {
        self.msg == Self::starter_msg()
    }

    fn starter_msg() -> (r: String)
        ensures
            r@ == starter_text(),
    {
        String::from_str("Status Messages")
    }
}

/// Whether `c` is one of the ten digits.
pub open spec fn is_digit(c: char) -> bool {
    '0' <= c <= '9'
}

/// Whether `text` has the shape of a time of day, `HH:MM:SS`: two digits each
/// for the hour, the minute and the second, with colons between them.
pub open spec fn is_time_of_day(text: Seq<char>) -> bool {
    &&& text.len() == 8
    &&& is_digit(text[0]) && is_digit(text[1])
    &&& text[2] == ':'
    &&& is_digit(text[3]) && is_digit(text[4])
    &&& text[5] == ':'
    &&& is_digit(text[6]) && is_digit(text[7])
}

/// What stands in the place of the time of day where the clock cannot be read.
pub open spec fn unknown_time() -> Seq<char> {
    "??:??:??"@
}

} // verus!
