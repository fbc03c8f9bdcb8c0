use crate::display_slice::{joined, Text};
use crate::status_msg::{reported_error, StatusMsg};
use crate::text::{capture_first_group, debug_quoted, debug_text, first_group};
use vstd::prelude::*;
use vstd::string::StringExecFns;

verus! {

/// The settings of a run of the experiments that are written in Python.
#[derive(Debug, PartialEq, Eq, Clone)]
pub struct PyExperiment {
    pub selected_algorithms: SelectedAlgorithms,
    /// The data directory, which lies beside the scripts.
    data_dir: Option<String>,
    /// The name of the data file within the data directory.
    data_filename: Option<String>,
    pub venv_activate_filename: Option<String>,
}

/// What is known of a path when it is offered as the data file.
#[derive(Debug, PartialEq, Eq, Clone)]
pub struct PathFacts {
    /// The extension of the path, if it has one.
    pub extension: Option<String>,
    /// Whether the directory that holds the path is the data directory; `None`
    /// for a path without a parent.
    pub parent_is_data_dir: Option<bool>,
    /// The last component of the path, if it has one and that is valid text.
    pub file_name: Option<String>,
}

/// Why a path was not taken as the data file.
#[derive(Debug, PartialEq, Eq, Clone, Copy, Structural)]
pub enum FilenameError {
    /// Only files that end in `.mat` can be run on.
    NotAMatFile,
    /// No data directory is set.
    NoDataDir,
    /// The file does not lie in the data directory.
    OutsideDataDir,
    /// The path has no file name that is valid text.
    NoFileName,
}

/// Why a run cannot start yet.
#[derive(Debug, PartialEq, Eq, Clone, Copy, Structural)]
#[allow(clippy::enum_variant_names)]
pub enum NotReadyReason {
    NoDataDirSet,
    NoFileSet,
    NoAlgorithmSelected,
}

impl Text for NotReadyReason {
    open spec fn text(&self) -> Seq<char> {
        match self {
            NotReadyReason::NoDataDirSet => "No Data Directory set"@,
            NotReadyReason::NoFileSet => "No filename set"@,
            NotReadyReason::NoAlgorithmSelected => "No Algorithm Selected"@,
        }
    }

    fn to_text(&self) -> (r: String) {
        match self {
            NotReadyReason::NoDataDirSet => String::from_str("No Data Directory set"),
            NotReadyReason::NoFileSet => String::from_str("No filename set"),
            NotReadyReason::NoAlgorithmSelected => String::from_str("No Algorithm Selected"),
        }
    }
}

/// Which of the algorithms take part in a run.
#[derive(Debug, PartialEq, Eq, Clone)]
pub struct SelectedAlgorithms {
    selected: [bool; 7],
}

impl View for SelectedAlgorithms {
    type V = Seq<bool>;

    closed spec fn view(&self) -> Seq<bool> {
        self.selected@
    }
}

/// The name of the algorithm at `index`, as the scripts know it.
pub open spec fn algorithm_name(index: int) -> Seq<char> {
    if index == 0 {
        "IsolationForest"@
    } else if index == 1 {
        "LocalOutlierFactor"@
    } else if index == 2 {
        "OneClassSVM"@
    } else if index == 3 {
        "PIDForest"@
    } else if index == 4 {
        "EIF"@
    } else if index == 5 {
        "Custom1"@
    } else {
        "CustomIF"@
    }
}

/// The names of those of the first `upto` algorithms that are selected.
pub open spec fn selected_names(selected: Seq<bool>, upto: int) -> Seq<Seq<char>>
    decreases upto,
{
    if upto <= 0 {
        Seq::empty()
    } else if selected[upto - 1] {
        selected_names(selected, upto - 1).push(algorithm_name(upto - 1))
    } else {
        selected_names(selected, upto - 1)
    }
}

/// Whether one of the algorithms is selected.
pub open spec fn any_selected(selected: Seq<bool>) -> bool {
    exists|i: int| 0 <= i < 7 && #[trigger] selected[i]
}

impl Default for SelectedAlgorithms {
    fn default() -> (r: Self)
        ensures
            r@ == Seq::new(7, |i: int| false),
    {
        let r = Self { selected: [false; 7] };
        assert(r@ =~= Seq::new(7, |i: int| false));
        r
    }
}

impl SelectedAlgorithms {
    pub const LEN: usize = 7;

    /// The selection in which the algorithm at `i` takes part where
    /// `selected[i]` holds.
    pub fn from_flags(selected: [bool; 7]) -> (r: Self)
        ensures
            r@ == selected@,
    {
        Self { selected }
    }

    /// For each algorithm, whether it takes part.
    pub fn flags(&self) -> (r: [bool; 7])
        ensures
            r@ == self@,
    {
        self.selected
    }

    /// There are seven algorithms.
    pub proof fn lemma_len(&self)
        ensures
            self@.len() == 7,
    {
    }

    /// The name of the algorithm at `index`.
    pub fn name(index: usize) -> (r: &'static str)
        requires
            index < 7,
        ensures
            r@ == algorithm_name(index as int),
    {
        if index == 0 {
            "IsolationForest"
        } else if index == 1 {
            "LocalOutlierFactor"
        } else if index == 2 {
            "OneClassSVM"
        } else if index == 3 {
            "PIDForest"
        } else if index == 4 {
            "EIF"
        } else if index == 5 {
            "Custom1"
        } else {
            "CustomIF"
        }
    }

    /// The names of the selected algorithms, with commas between them.
    pub fn as_delimited_string(&self) -> (r: String)
        ensures
            r@ == joined(selected_names(self@, 7), ","@),
    {
        let mut line = String::from_str("");
        let mut any = false;
        let mut i: usize = 0;
        proof {
            reveal_strlit("");
        }
        while i < 7
            invariant
                i <= 7,
                self.selected@.len() == 7,
                any == (selected_names(self@, i as int).len() > 0),
                line@ == joined(selected_names(self@, i as int), ","@),
            decreases 7 - i,
        {
            if self.selected[i] {
                let name = Self::name(i);
                proof {
                    let before = selected_names(self@, i as int);
                    let after = selected_names(self@, i + 1);
                    assert(after == before.push(name@));
                    assert(after.drop_last() =~= before);
                    assert(after.last() == name@);
                }
                if any {
                    line.append(",");
                } else {
                    proof {
                        assert(line@ + name@ =~= name@);
                        assert(selected_names(self@, i + 1)[0] == name@);
                    }
                }
                line.append(name);
                any = true;
            }
            i += 1;
        }
        line
    }

    /// The name of the algorithm at `index`, and whether it is selected, for
    /// editing.
    pub fn get_mut(&mut self, index: usize) -> (r: (&'static str, &mut bool))
        requires
            index < 7,
        ensures
            r.0@ == algorithm_name(index as int),
            *r.1 == old(self)@[index as int],
            final(self)@ == old(self)@.update(index as int, *final(r.1)),
    {
        (Self::name(index), &mut self.selected[index])
    }

    pub fn has_at_least_one(&self) -> (r: bool)
        ensures
            r == any_selected(self@),
    {
        let mut i: usize = 0;
        while i < 7
            invariant
                i <= 7,
                self.selected@.len() == 7,
                forall|k: int| 0 <= k < i ==> !#[trigger] self@[k],
            decreases 7 - i,
        {
            if self.selected[i] {
                assert(self@[i as int]);
                return true;
            }
            i += 1;
        }
        false
    }
}

/// What the output of a run says of where its results are.
#[derive(Debug, PartialEq, Eq, Clone)]
pub struct RunResult {
    pub output_folder: Option<String>,
    pub performances: Option<String>,
}

/// The view of a text that may be missing.
pub open spec fn text_of(text: Option<String>) -> Option<Seq<char>> {
    match text {
        Some(text) => Some(text@),
        None => None,
    }
}

/// The pattern of the line that names the output folder.
pub open spec fn output_folder_pattern() -> Seq<char> {
    "Output folder: \"(.+)\""@
}

/// The pattern of the line that names the file of performances.
pub open spec fn performances_pattern() -> Seq<char> {
    "Performances saved to: \"(.+)\""@
}

impl RunResult {
    /// Reads from the standard output of a run what it names between quotes
    /// after `Output folder: ` and after `Performances saved to: `.
    pub fn from_stdout(out: &str) -> (r: Self)
        ensures
            text_of(r.output_folder) == first_group(output_folder_pattern(), out@),
            text_of(r.performances) == first_group(performances_pattern(), out@),
    {
        RunResult {
            output_folder: capture_first_group("Output folder: \"(.+)\"", out),
            performances: capture_first_group("Performances saved to: \"(.+)\"", out),
        }
    }
}

/// Why a run that has ended is not taken as a success.
#[derive(Debug, PartialEq, Eq, Clone, Copy, Structural)]
pub enum RunError {
    /// The run ended with this exit code, which is not 0.
    ExitCode(i32),
    /// The run ended well but its output names no output folder.
    NoOutputFolder,
}

/// What a run that ended with `exit_code` comes to, given what was found in its
/// output: the output folder to open, or why there is none.
pub open spec fn run_verdict(exit_code: i32, found: RunResult) -> Result<Seq<char>, RunError> {
    if exit_code != 0 {
        Err(RunError::ExitCode(exit_code))
    } else {
        match found.output_folder {
            Some(folder) => Ok(folder@),
            None => Err(RunError::NoOutputFolder),
        }
    }
}

/// What a run that ended with `exit_code` comes to, given what was found in its
/// output. Reports what the run wrote to its standard error, and that it wrote
/// nothing there if it failed.
pub fn judge_run(exit_code: i32, found: RunResult, stderr: &str, status_msg: &mut StatusMsg) -> (r:
    Result<String, RunError>)
    ensures
        match r {
            Ok(folder) => run_verdict(exit_code, found) == Ok::<Seq<char>, RunError>(folder@),
            Err(e) => run_verdict(exit_code, found) == Err::<Seq<char>, RunError>(e),
        },
        stderr@.len() > 0 ==> reported_error(
            old(status_msg)@,
            final(status_msg)@,
            "stderr: "@ + debug_text(stderr@),
        ),
        stderr@.len() == 0 && exit_code != 0 ==> reported_error(
            old(status_msg)@,
            final(status_msg)@,
            "stderr was empty"@,
        ),
        stderr@.len() == 0 && exit_code == 0 ==> final(status_msg)@ == old(status_msg)@,
{
    if stderr.unicode_len() > 0 {
        let mut said = String::from_str("stderr: ");
        said.append(debug_quoted(stderr).as_str());
        status_msg.error_display(said.as_str());
    }
    if exit_code != 0 {
        if stderr.unicode_len() == 0 {
            status_msg.error_display("stderr was empty");
        }
        return Err(RunError::ExitCode(exit_code));
    }
    match found.output_folder {
        Some(folder) => Ok(folder),
        None => Err(RunError::NoOutputFolder),
    }
}

/// What a call of [`RunResult::from_stdout`] on `stdout` and then of
/// [`judge_run`] comes to.
pub fn review_run(exit_code: i32, stdout: &str, stderr: &str, status_msg: &mut StatusMsg) -> (r:
    Result<String, RunError>)
    ensures
        exit_code != 0 ==> r == Err::<String, RunError>(RunError::ExitCode(exit_code)),
        exit_code == 0 ==> match r {
            Ok(folder) => first_group(output_folder_pattern(), stdout@) == Some(folder@),
            Err(e) => e == RunError::NoOutputFolder && first_group(
                output_folder_pattern(),
                stdout@,
            ).is_none(),
        },
        stderr@.len() > 0 ==> reported_error(
            old(status_msg)@,
            final(status_msg)@,
            "stderr: "@ + debug_text(stderr@),
        ),
        stderr@.len() == 0 && exit_code != 0 ==> reported_error(
            old(status_msg)@,
            final(status_msg)@,
            "stderr was empty"@,
        ),
        stderr@.len() == 0 && exit_code == 0 ==> final(status_msg)@ == old(status_msg)@,
{
    let found = RunResult::from_stdout(stdout);
    judge_run(exit_code, found, stderr, status_msg)
}

impl Default for PyExperiment {
    fn default() -> (r: Self)
        ensures
            r.algorithms() == Seq::new(7, |i: int| false),
            r.dir().is_none(),
            r.filename().is_none(),
            r.venv().is_none(),
    {
        Self {
            selected_algorithms: SelectedAlgorithms::default(),
            data_dir: None,
            data_filename: None,
            venv_activate_filename: None,
        }
    }
}

impl PyExperiment {
    /// Which of the algorithms are selected.
    pub closed spec fn algorithms(&self) -> Seq<bool> {
        self.selected_algorithms@
    }

    /// The script that activates the virtual environment, if one is set.
    pub closed spec fn venv(&self) -> Option<Seq<char>> {
        text_of(self.venv_activate_filename)
    }

    /// The data directory, if one is set.
    pub closed spec fn dir(&self) -> Option<Seq<char>> {
        text_of(self.data_dir)
    }

    /// The name of the data file, if one is set.
    pub closed spec fn filename(&self) -> Option<Seq<char>> {
        text_of(self.data_filename)
    }

    /// Why a run cannot start yet, in the order in which the reasons are looked
    /// for.
    pub open spec fn reasons(&self) -> Seq<NotReadyReason> {
        let no_algorithm: Seq<NotReadyReason> = if any_selected(self.algorithms()) {
            seq![]
        } else {
            seq![NotReadyReason::NoAlgorithmSelected]
        };
        let no_dir: Seq<NotReadyReason> = if self.dir().is_none() {
            seq![NotReadyReason::NoDataDirSet]
        } else {
            seq![]
        };
        let no_file: Seq<NotReadyReason> = if self.filename().is_none() {
            seq![NotReadyReason::NoFileSet]
        } else {
            seq![]
        };
        no_algorithm + no_dir + no_file
    }

    /// The command that starts the run, where nothing keeps it from starting.
    pub open spec fn command(&self) -> Seq<char> {
        let activate = match self.venv() {
            Some(script) => "source "@ + debug_text(script) + " && "@,
            None => Seq::empty(),
        };
        activate + "python src/sub_routine.py "@ + self.filename().unwrap() + " -a "@ + joined(
            selected_names(self.algorithms(), 7),
            ","@,
        )
    }

    /// Settings that hold what is given. Nothing is checked: the file name is
    /// taken as one that [`PyExperiment::set_filename`] has let in before.
    pub fn from_parts(
        selected_algorithms: SelectedAlgorithms,
        data_dir: Option<String>,
        data_filename: Option<String>,
        venv_activate_filename: Option<String>,
    ) -> (r: Self)
        ensures
            r.algorithms() == selected_algorithms@,
            r.dir() == text_of(data_dir),
            r.filename() == text_of(data_filename),
            r.venv() == text_of(venv_activate_filename),
    {
        Self { selected_algorithms, data_dir, data_filename, venv_activate_filename }
    }

    pub fn unset_filename(&mut self)
        ensures
            final(self).filename().is_none(),
            final(self).dir() == old(self).dir(),
            final(self).algorithms() == old(self).algorithms(),
            final(self).venv() == old(self).venv(),
    {
        self.data_filename = None;
    }

    /// What keeps the path from being taken as the data file, if anything does:
    /// the first of the faults in the order of [`FilenameError`].
    pub open spec fn filename_fault(&self, path: PathFacts) -> Option<FilenameError> {
        if text_of(path.extension) != Some("mat"@) {
            Some(FilenameError::NotAMatFile)
        } else if self.dir().is_none() {
            Some(FilenameError::NoDataDir)
        } else if path.parent_is_data_dir == Some(false) {
            Some(FilenameError::OutsideDataDir)
        } else if path.file_name.is_none() {
            Some(FilenameError::NoFileName)
        } else {
            None
        }
    }

    /// Takes the file name of the path as the name of the data file, if the
    /// path ends in `.mat` and lies in the data directory, and returns it.
    /// Otherwise the name that is set stays.
    pub fn set_filename(&mut self, path: &PathFacts) -> (r: Result<&str, FilenameError>)
        ensures
            final(self).dir() == old(self).dir(),
            final(self).algorithms() == old(self).algorithms(),
            final(self).venv() == old(self).venv(),
            match r {
                Ok(name) => {
                    &&& old(self).filename_fault(*path).is_none()
                    &&& name@ == path.file_name.unwrap()@
                    &&& final(self).filename() == Some(name@)
                },
                Err(e) => {
                    &&& old(self).filename_fault(*path) == Some(e)
                    &&& final(self).filename() == old(self).filename()
                },
            },
    {
        let is_mat = match &path.extension {
            Some(extension) => *extension == String::from_str("mat"),
            None => false,
        };
        if !is_mat {
            return Err(FilenameError::NotAMatFile);
        }
        if self.data_dir.is_none() {
            return Err(FilenameError::NoDataDir);
        }
        if let Some(in_data_dir) = path.parent_is_data_dir {
            if !in_data_dir {
                return Err(FilenameError::OutsideDataDir);
            }
        }
        match &path.file_name {
            Some(filename) => {
                self.data_filename = Some(filename.clone());
                match &self.data_filename {
                    Some(name) => Ok(name.as_str()),
                    None => Err(FilenameError::NoFileName),
                }
            },
            None => Err(FilenameError::NoFileName),
        }
    }

    pub fn data_filename(&self) -> (r: Option<&String>)
        ensures
            match r {
                Some(name) => self.filename() == Some(name@),
                None => self.filename().is_none(),
            },
    {
        self.data_filename.as_ref()
    }

    pub fn not_ready_reasons(&self) -> (r: Vec<NotReadyReason>)
        ensures
            r@ == self.reasons(),
    {
        let mut result: Vec<NotReadyReason> = Vec::new();

        if !self.selected_algorithms.has_at_least_one() {
            result.push(NotReadyReason::NoAlgorithmSelected)
        }
        if self.data_dir.is_none() {
            result.push(NotReadyReason::NoDataDirSet)
        }
        if self.data_filename.is_none() {
            result.push(NotReadyReason::NoFileSet)
        }
        assert(result@ =~= self.reasons());
        result
    }

    /// The command line that starts the run, or why the run cannot start.
    pub fn command_line(&self) -> (r: Result<String, Vec<NotReadyReason>>)
        ensures
            match r {
                Ok(line) => self.reasons().len() == 0 && line@ == self.command(),
                Err(reasons) => reasons@.len() > 0 && reasons@ == self.reasons(),
            },
    {
        let reasons = self.not_ready_reasons();
        if reasons.len() > 0 {
            return Err(reasons);
        }
        let mut cmd_str = String::from_str("");
        proof {
            reveal_strlit("");
        }
        if let Some(filename) = &self.venv_activate_filename {
            cmd_str.append("source ");
            cmd_str.append(debug_quoted(filename.as_str()).as_str());
            cmd_str.append(" && ");
        }
        cmd_str.append("python src/sub_routine.py ");
        match &self.data_filename {
            Some(name) => cmd_str.append(name.as_str()),
            None => {},
        }
        cmd_str.append(" -a ");
        cmd_str.append(self.selected_algorithms.as_delimited_string().as_str());
        assert(cmd_str@ =~= self.command());
        Ok(cmd_str)
    }

    pub fn data_dir(&self) -> (r: Option<&String>)
        ensures
            match r {
                Some(dir) => self.dir() == Some(dir@),
                None => self.dir().is_none(),
            },
    {
        self.data_dir.as_ref()
    }

    /// Sets the data directory. This never fails.
    pub fn set_data_dir(&mut self, value: Option<String>) -> (r: Result<(), FilenameError>)
        ensures
            r.is_ok(),
            final(self).dir() == text_of(value),
            final(self).filename() == old(self).filename(),
            final(self).algorithms() == old(self).algorithms(),
            final(self).venv() == old(self).venv(),
    {
        self.data_dir = value;
        Ok(())
    }
}

} // verus!
