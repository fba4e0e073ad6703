//! Descriptions of external commands, the expectations held against them,
//! and the comparison of a finished process with its expectation.

use vstd::prelude::*;
use vstd::string::*;
use vstd::slice::slice_to_vec;
use vstd::utf8::encode_utf8;
use crate::text::{same_text, contains_bytes, occurs_in};

verus! {

/// Variable names and values as text, in the order in which they are kept.
pub open spec fn text_pairs(vars: Seq<(String, String)>) -> Seq<(Seq<char>, Seq<char>)> {
    vars.map_values(|p: (String, String)| (p.0@, p.1@))
}

/// No variable is named twice.
pub open spec fn names_distinct(pairs: Seq<(Seq<char>, Seq<char>)>) -> bool {
    forall|i: int, j: int| 0 <= i < j < pairs.len() ==> pairs[i].0 != pairs[j].0
}

/// Some pair names `name`.
pub open spec fn defines(pairs: Seq<(Seq<char>, Seq<char>)>, name: Seq<char>) -> bool {
    exists|i: int| 0 <= i < pairs.len() && #[trigger] pairs[i].0 == name
}

/// Where `name` is defined, for a name that is.
pub open spec fn position_of(pairs: Seq<(Seq<char>, Seq<char>)>, name: Seq<char>) -> int {
    choose|i: int| 0 <= i < pairs.len() && #[trigger] pairs[i].0 == name
}

/// The mapping that a list of pairs stands for.
pub open spec fn as_map(pairs: Seq<(Seq<char>, Seq<char>)>) -> Map<Seq<char>, Seq<char>> {
    Map::new(|name: Seq<char>| defines(pairs, name), |name: Seq<char>| pairs[position_of(pairs, name)].1)
}

/// With distinct names, the pair at `i` is the definition of its name.
pub proof fn lemma_position_unique(pairs: Seq<(Seq<char>, Seq<char>)>, i: int)
    requires
        names_distinct(pairs),
        0 <= i < pairs.len(),
    ensures
        defines(pairs, pairs[i].0),
        position_of(pairs, pairs[i].0) == i,
{
    let name = pairs[i].0;
    assert(pairs[i].0 == name);
    let j = position_of(pairs, name);
    assert(0 <= j < pairs.len() && pairs[j].0 == name);
    if j < i {
        assert(pairs[j].0 != pairs[i].0);
    } else if i < j {
        assert(pairs[i].0 != pairs[j].0);
    }
}

/// An environment overlay: variables that a spawned process gets in place
/// of, or besides, the ones it inherits. Each name is kept once.
pub struct EnvVars {
    vars: Vec<(String, String)>,
}

impl View for EnvVars {
    type V = Map<Seq<char>, Seq<char>>;

    closed spec fn view(&self) -> Map<Seq<char>, Seq<char>> {
        as_map(text_pairs(self.vars@))
    }
}

impl Clone for EnvVars {
    /// An overlay of its own that sets what this one sets.
    fn clone(&self) -> (copy: EnvVars)
        ensures
            copy@ == self@,
    {
        EnvVars { vars: self.to_vec() }
    }
}

impl EnvVars {
    #[verifier::type_invariant]
    spec fn names_differ(&self) -> bool {
        names_distinct(text_pairs(self.vars@))
    }

    /// An overlay that sets nothing.
    pub fn new() -> (e: EnvVars)
        ensures
            e@ == Map::<Seq<char>, Seq<char>>::empty(),
    {
        let e = EnvVars { vars: Vec::new() };
        assert(e@ =~= Map::<Seq<char>, Seq<char>>::empty());
        e
    }

    fn find(&self, var: &str) -> (at: Option<usize>)
        ensures
            match at {
                Some(i) => i < self.vars.len() && self.vars[i as int].0@ == var@,
                None => !defines(text_pairs(self.vars@), var@),
            },
    {
        let mut i: usize = 0;
        while i < self.vars.len()
            invariant
                i <= self.vars.len(),
                forall|k: int| 0 <= k < i ==> self.vars[k].0@ != var@,
            decreases self.vars.len() - i,
        {
            if same_text(self.vars[i].0.as_str(), var) {
                return Some(i);
            }
            i = i + 1;
        }
        None
    }

    /// The value that the overlay gives `var`, if it sets it.
    pub fn get(&self, var: &str) -> (value: Option<&String>)
        ensures
            match value {
                Some(v) => self@.dom().contains(var@) && self@[var@] == v@,
                None => !self@.dom().contains(var@),
            },
    {
        proof {
            use_type_invariant(self);
        }
        match self.find(var) {
            Some(i) => {
                proof {
                    lemma_position_unique(text_pairs(self.vars@), i as int);
                }
                Some(&self.vars[i].1)
            },
            None => None,
        }
    }

    /// The overlay that sets `var` to `value` and is otherwise as this one.
    pub fn with(self, var: &str, value: &str) -> (e: EnvVars)
        ensures
            e@ == self@.insert(var@, value@),
    {
        proof {
            use_type_invariant(&self);
        }
        let at = self.find(var);
        let mut vars = self.vars;
        let ghost before = text_pairs(vars@);
        let pair = (String::from_str(var), String::from_str(value));
        match at {
            Some(i) => {
                vars.set(i, pair);
                proof {
                    assert(text_pairs(vars@) == before.update(i as int, (before[i as int].0, value@)));
                    lemma_replaced(before, text_pairs(vars@), i as int, value@);
                }
            },
            None => {
                vars.push(pair);
                proof {
                    assert(text_pairs(vars@) == before.push((var@, value@)));
                    lemma_appended(before, var@, value@);
                }
            },
        }
        EnvVars { vars }
    }

    /// Sets `var` to `value`, in place of any value it had.
    pub fn insert(&mut self, var: &str, value: &str)
        ensures
            final(self)@ == old(self)@.insert(var@, value@),
    {
        let mut taken = EnvVars::new();
        std::mem::swap(self, &mut taken);
        *self = taken.with(var, value);
    }

    /// The environment that a process spawned under this overlay sees,
    /// given the one it would inherit: what the overlay sets, and of the
    /// rest what `inherited` holds.
    pub fn onto(&self, inherited: &EnvVars) -> (seen: EnvVars)
        ensures
            seen@ == inherited@.union_prefer_right(self@),
    {
        proof {
            use_type_invariant(self);
            use_type_invariant(inherited);
        }
        let ghost mine = text_pairs(self.vars@);
        let mut seen = EnvVars { vars: inherited.to_vec() };
        assert(seen@ =~= inherited@.union_prefer_right(as_map(mine.take(0))));
        let mut i: usize = 0;
        while i < self.vars.len()
            invariant
                i <= self.vars.len(),
                mine == text_pairs(self.vars@),
                names_distinct(mine),
                seen@ == inherited@.union_prefer_right(as_map(mine.take(i as int))),
            decreases self.vars.len() - i,
        {
            proof {
                let done = mine.take(i as int);
                assert(mine.take(i + 1) == done.push(mine[i as int]));
                assert(names_distinct(done));
                assert(!defines(done, mine[i as int].0)) by {
                    if defines(done, mine[i as int].0) {
                        let k = position_of(done, mine[i as int].0);
                        assert(mine[k].0 != mine[i as int].0);
                    }
                }
                lemma_appended(done, mine[i as int].0, mine[i as int].1);
                assert(inherited@.union_prefer_right(as_map(done)).insert(
                    mine[i as int].0,
                    mine[i as int].1,
                ) =~= inherited@.union_prefer_right(
                    as_map(done).insert(mine[i as int].0, mine[i as int].1),
                ));
            }
            seen = seen.with(self.vars[i].0.as_str(), self.vars[i].1.as_str());
            i = i + 1;
        }
        assert(mine.take(i as int) == mine);
        seen
    }

    /// The variables of the overlay, each once, as pairs of name and value.
    pub fn to_vec(&self) -> (pairs: Vec<(String, String)>)
        ensures
            names_distinct(text_pairs(pairs@)),
            as_map(text_pairs(pairs@)) == self@,
    {
        proof {
            use_type_invariant(self);
        }
        let mut out: Vec<(String, String)> = Vec::new();
        let mut i: usize = 0;
        while i < self.vars.len()
            invariant
                i <= self.vars.len(),
                text_pairs(out@) == text_pairs(self.vars@).take(i as int),
            decreases self.vars.len() - i,
        {
            let name = self.vars[i].0.clone();
            let value = self.vars[i].1.clone();
            out.push((name, value));
            assert(text_pairs(out@) == text_pairs(self.vars@).take(i as int).push(
                text_pairs(self.vars@)[i as int],
            ));
            assert(text_pairs(self.vars@).take(i + 1) == text_pairs(self.vars@).take(i as int).push(
                text_pairs(self.vars@)[i as int],
            ));
            i = i + 1;
        }
        assert(text_pairs(self.vars@).take(i as int) == text_pairs(self.vars@));
        out
    }
}

/// Giving a name that is already defined a new value changes that value
/// in the mapping and nothing else.
pub proof fn lemma_replaced(
    before: Seq<(Seq<char>, Seq<char>)>,
    after: Seq<(Seq<char>, Seq<char>)>,
    i: int,
    value: Seq<char>,
)
    requires
        names_distinct(before),
        0 <= i < before.len(),
        after == before.update(i, (before[i].0, value)),
    ensures
        names_distinct(after),
        as_map(after) == as_map(before).insert(before[i].0, value),
{
    let name = before[i].0;
    assert forall|n: Seq<char>| defines(after, n) == (defines(before, n) || n == name) by {
        if defines(before, n) {
            let k = position_of(before, n);
            assert(after[k].0 == n);
        }
        if defines(after, n) {
            let k = position_of(after, n);
            assert(before[k].0 == n);
        }
        if n == name {
            assert(after[i].0 == n);
        }
    }
    assert forall|n: Seq<char>| defines(after, n) implies as_map(after)[n] == as_map(
        before,
    ).insert(name, value)[n] by {
        let k = position_of(after, n);
        lemma_position_unique(after, k);
        if n == name {
            lemma_position_unique(after, i);
        } else {
            assert(before[k].0 == n);
            lemma_position_unique(before, k);
        }
    }
    assert(as_map(after) =~= as_map(before).insert(name, value));
}

/// Adding a pair under a name that was not defined extends the mapping by
/// that pair and changes nothing else.
pub proof fn lemma_appended(before: Seq<(Seq<char>, Seq<char>)>, name: Seq<char>, value: Seq<char>)
    requires
        names_distinct(before),
        !defines(before, name),
    ensures
        names_distinct(before.push((name, value))),
        as_map(before.push((name, value))) == as_map(before).insert(name, value),
{
    let after = before.push((name, value));
    assert forall|i: int, j: int| 0 <= i < j < after.len() implies after[i].0 != after[j].0 by {
        if j == before.len() {
            assert(before[i].0 != name);
        }
    }
    assert forall|n: Seq<char>| defines(after, n) == (defines(before, n) || n == name) by {
        if defines(before, n) {
            let k = position_of(before, n);
            assert(after[k].0 == n);
        }
        if defines(after, n) {
            let k = position_of(after, n);
            if k < before.len() {
                assert(before[k].0 == n);
            }
        }
        if n == name {
            assert(after[before.len() as int].0 == n);
        }
    }
    assert forall|n: Seq<char>| defines(after, n) implies as_map(after)[n] == as_map(
        before,
    ).insert(name, value)[n] by {
        let k = position_of(after, n);
        lemma_position_unique(after, k);
        if n == name {
            lemma_position_unique(after, before.len() as int);
        } else {
            assert(before[k].0 == n);
            lemma_position_unique(before, k);
        }
    }
    assert(as_map(after) =~= as_map(before).insert(name, value));
}

/// An overlay that sets nothing.
pub fn new_env_vars() -> (e: EnvVars)
    ensures
        e@ == Map::<Seq<char>, Seq<char>>::empty(),
{
    EnvVars::new()
}

/// Each string of a list as text.
pub open spec fn texts(items: Seq<String>) -> Seq<Seq<char>> {
    items.map_values(|s: String| s@)
}

/// Each string slice of a list as text.
pub open spec fn strs(items: Seq<&str>) -> Seq<Seq<char>> {
    items.map_values(|s: &str| s@)
}

/// An optional string as text.
pub open spec fn opt_text(item: Option<String>) -> Option<Seq<char>> {
    match item {
        Some(s) => Some(s@),
        None => None,
    }
}

/// One external command: what to run, where, with which variables set,
/// and where its standard output is to be kept.
pub struct Cmd {
    /// The program, then its arguments.
    pub command: Vec<String>,
    /// The directory to run in; the caller's own where there is none.
    pub working_dir: Option<String>,
    /// Variables set for the spawned process only.
    pub env: Option<EnvVars>,
    /// The file that receives the process's standard output, if any.
    pub writes_file: Option<String>,
}

/// A command as plain values.
pub struct CmdView {
    pub command: Seq<Seq<char>>,
    pub working_dir: Option<Seq<char>>,
    pub env: Map<Seq<char>, Seq<char>>,
    pub writes_file: Option<Seq<char>>,
}

impl CmdView {
    /// This command with `name` set to `value` for the process.
    pub open spec fn with_env(self, name: Seq<char>, value: Seq<char>) -> CmdView {
        CmdView { env: self.env.insert(name, value), ..self }
    }

    /// This command, run in `path`.
    pub open spec fn with_dir(self, path: Seq<char>) -> CmdView {
        CmdView { working_dir: Some(path), ..self }
    }

    /// This command, with its standard output kept in `path`.
    pub open spec fn with_capture(self, path: Seq<char>) -> CmdView {
        CmdView { writes_file: Some(path), ..self }
    }
}

/// The command that runs `argv` where the caller stands, with the
/// inherited variables and no capture.
pub open spec fn plain_cmd(argv: Seq<Seq<char>>) -> CmdView {
    CmdView { command: argv, working_dir: None, env: Map::empty(), writes_file: None }
}

impl View for Cmd {
    type V = CmdView;

    open spec fn view(&self) -> CmdView {
        CmdView {
            command: texts(self.command@),
            working_dir: opt_text(self.working_dir),
            env: match self.env {
                Some(e) => e@,
                None => Map::empty(),
            },
            writes_file: opt_text(self.writes_file),
        }
    }
}

impl Clone for Cmd {
    /// A command of its own that describes what this one describes.
    fn clone(&self) -> (copy: Cmd)
        ensures
            copy@ == self@,
            copy.env is Some == self.env is Some,
    {
        let mut command: Vec<String> = Vec::new();
        let mut i: usize = 0;
        while i < self.command.len()
            invariant
                i <= self.command.len(),
                texts(command@) == texts(self.command@).take(i as int),
            decreases self.command.len() - i,
        {
            command.push(self.command[i].clone());
            assert(texts(command@) == texts(self.command@).take(i as int).push(
                self.command@[i as int]@,
            ));
            i = i + 1;
        }
        assert(texts(self.command@).take(i as int) == texts(self.command@));
        let working_dir = match &self.working_dir {
            Some(dir) => Some(dir.clone()),
            None => None,
        };
        let env = match &self.env {
            Some(overlay) => Some(overlay.clone()),
            None => None,
        };
        let writes_file = match &self.writes_file {
            Some(file) => Some(file.clone()),
            None => None,
        };
        Cmd { command, working_dir, env, writes_file }
    }
}

impl Cmd {
    /// The command that runs `command`: a program and its arguments.
    pub fn new(command: Vec<&str>) -> (c: Cmd)
        ensures
            c@ == plain_cmd(strs(command@)),
            c.env is Some,
    {
        let mut argv: Vec<String> = Vec::new();
        let mut i: usize = 0;
        while i < command.len()
            invariant
                i <= command.len(),
                texts(argv@) == strs(command@).take(i as int),
            decreases command.len() - i,
        {
            argv.push(String::from_str(command[i]));
            assert(texts(argv@) == strs(command@).take(i as int).push(command@[i as int]@));
            i = i + 1;
        }
        assert(strs(command@).take(i as int) == strs(command@));
        Cmd { command: argv, working_dir: None, env: Some(new_env_vars()), writes_file: None }
    }

    /// Sets `var` to `value` for the spawned process, in place of any
    /// value the overlay gave it before.
    pub fn env(&mut self, var: &str, value: &str) -> (c: &mut Cmd)
        ensures
            c@ == old(self)@.with_env(var@, value@),
            c.env is Some,
            *final(self) == *final(c),
    {
        let overlay = match self.env.take() {
            Some(e) => e,
            None => new_env_vars(),
        };
        self.env = Some(overlay.with(var, value));
        self
    }

    /// Has the command run in `path`.
    pub fn dir(&mut self, path: String) -> (c: &mut Cmd)
        ensures
            c@ == old(self)@.with_dir(path@),
            c.env == old(self).env,
            *final(self) == *final(c),
    {
        self.working_dir = Some(path);
        self
    }

    /// Has the command's standard output kept in the file `path`.
    pub fn writes_file(&mut self, path: String) -> (c: &mut Cmd)
        ensures
            c@ == old(self)@.with_capture(path@),
            c.env == old(self).env,
            *final(self) == *final(c),
    {
        self.writes_file = Some(path);
        self
    }
}

/// The ways in which running a step can go wrong.
#[derive(Clone, Copy, Debug, PartialEq, Eq)]
pub enum RunError {
    /// The step is malformed: it names no program, or its expectation
    /// reads output that the command does not capture.
    InvalidStep,
    /// The system could not start the process.
    SpawnFailed,
    /// The process ran, and its outcome is not what was expected.
    OutcomeMismatch,
    /// The operator chose to stop.
    UserAbort,
}

impl RunError {
    /// Whether the operator may still decide to go on after this error.
    /// Only an unexpected outcome leaves that choice.
    pub fn recoverable(&self) -> (yes: bool)
        ensures
            yes == (*self == RunError::OutcomeMismatch),
    {
        match self {
            RunError::OutcomeMismatch => true,
            _ => false,
        }
    }
}

/// A command made ready for the system: the program apart from its
/// arguments, and the overlay as a list that names each variable once.
pub struct Launch {
    pub program: String,
    pub args: Vec<String>,
    pub env: Vec<(String, String)>,
    pub dir: Option<String>,
    pub capture: Option<String>,
}

impl Cmd {
    /// Whether the command names a program to run.
    pub fn runnable(&self) -> (ok: bool)
        ensures
            ok == (self@.command.len() >= 1),
    {
        self.command.len() >= 1
    }

    /// The directory that the command runs in, for a caller that stands
    /// in `current`: the command's own where it names one.
    pub fn resolved_dir(&self, current: &str) -> (dir: String)
        ensures
            dir@ == match self@.working_dir {
                Some(own) => own,
                None => current@,
            },
    {
        match &self.working_dir {
            Some(own) => own.clone(),
            None => String::from_str(current),
        }
    }

    /// What is to be written once the process has ended, and where: the
    /// captured bytes as they are, into the file that the command names.
    /// How the process ended plays no part.
    pub fn capture(&self, result: &ExecutionResult) -> (kept: Option<(String, Vec<u8>)>)
        ensures
            kept is Some <==> self@.writes_file is Some && result@.output is Some,
            kept matches Some(pair) ==> Some(pair.0@) == self@.writes_file && Some(pair.1@)
                == result@.output,
    {
        match (&self.writes_file, &result.output) {
            (Some(path), Some(bytes)) => Some((path.clone(), slice_to_vec(bytes.as_slice()))),
            _ => None,
        }
    }

    /// Makes the command ready to be spawned. A command that names no
    /// program is refused, and nothing of it is handed on.
    pub fn launch(&self) -> (ready: Result<Launch, RunError>)
        ensures
            ready is Ok <==> self@.command.len() >= 1,
            ready matches Err(e) ==> e == RunError::InvalidStep,
            ready matches Ok(l) ==> {
                &&& l.program@ == self@.command[0]
                &&& texts(l.args@) == self@.command.subrange(1, self@.command.len() as int)
                &&& names_distinct(text_pairs(l.env@))
                &&& as_map(text_pairs(l.env@)) == self@.env
                &&& opt_text(l.dir) == self@.working_dir
                &&& opt_text(l.capture) == self@.writes_file
            },
    {
        if self.command.len() < 1 {
            return Err(RunError::InvalidStep);
        }
        let program = self.command[0].clone();
        let mut args: Vec<String> = Vec::new();
        let mut i: usize = 1;
        while i < self.command.len()
            invariant
                1 <= i <= self.command.len(),
                texts(args@) == texts(self.command@).subrange(1, i as int),
            decreases self.command.len() - i,
        {
            args.push(self.command[i].clone());
            assert(texts(args@) == texts(self.command@).subrange(1, i as int).push(
                self.command@[i as int]@,
            ));
            i = i + 1;
        }
        let env = match &self.env {
            Some(e) => e.to_vec(),
            None => {
                let none: Vec<(String, String)> = Vec::new();
                assert(as_map(text_pairs(none@)) =~= Map::<Seq<char>, Seq<char>>::empty());
                none
            },
        };
        let dir = match &self.working_dir {
            Some(d) => Some(d.clone()),
            None => None,
        };
        let capture = match &self.writes_file {
            Some(f) => Some(f.clone()),
            None => None,
        };
        Ok(Launch { program, args, env, dir, capture })
    }
}

/// What became of a process that was started and waited for.
pub struct ExecutionResult {
    /// The exit code, or `None` where a signal ended the process.
    pub code: Option<i32>,
    /// The process's standard output, where the step had it captured.
    pub output: Option<Vec<u8>>,
}

/// An execution result as plain values.
pub struct ResultView {
    pub code: Option<i32>,
    pub output: Option<Seq<u8>>,
}

impl View for ExecutionResult {
    type V = ResultView;

    open spec fn view(&self) -> ResultView {
        ResultView {
            code: self.code,
            output: match self.output {
                Some(bytes) => Some(bytes@),
                None => None,
            },
        }
    }
}

impl ResultView {
    /// The process ran to its end and reported success.
    pub open spec fn success(self) -> bool {
        self.code == Some(0i32)
    }

    /// Output was captured and `pattern`, in UTF-8, occurs in it.
    pub open spec fn shows(self, pattern: Seq<char>) -> bool {
        self.output matches Some(bytes) && occurs_in(bytes, encode_utf8(pattern))
    }
}

impl ExecutionResult {
    /// Whether the process ran to its end and reported success.
    pub fn success(&self) -> (ok: bool)
        ensures
            ok == self@.success(),
    {
        match self.code {
            Some(c) => c == 0,
            None => false,
        }
    }

    /// Whether the process ended with exit code `code`. A process that a
    /// signal ended has no exit code, so it ended with none.
    pub fn exited_with(&self, code: i32) -> (ok: bool)
        ensures
            ok == (self.code == Some(code)),
    {
        match self.code {
            Some(c) => c == code,
            None => false,
        }
    }

    /// Whether output was captured and holds `pattern`.
    pub fn shows(&self, pattern: &str) -> (ok: bool)
        ensures
            ok == self@.shows(pattern@),
    {
        match &self.output {
            Some(bytes) => {
                let needle = pattern.as_bytes_vec();
                contains_bytes(bytes, &needle)
            },
            None => false,
        }
    }
}

/// The outcome that counts as fine for a step.
pub enum Expect {
    /// The process exits with this code.
    Code(i32),
    /// The captured output holds this text.
    Output(String),
    /// The process exits with this code and the output holds this text.
    CodeWithOutput((i32, String)),
    /// The process succeeds and the output holds this text.
    SuccessWithOutput(String),
    /// The process fails and the output holds this text.
    FailureWithOutput(String),
    /// The process exits with code zero.
    Success,
    /// The process does anything but exit with code zero.
    Failure,
    /// Any outcome is fine.
    Any,
}

/// An expectation as plain values.
pub enum ExpectView {
    Code(i32),
    Output(Seq<char>),
    CodeWithOutput(i32, Seq<char>),
    SuccessWithOutput(Seq<char>),
    FailureWithOutput(Seq<char>),
    Success,
    Failure,
    Any,
}

impl ExpectView {
    /// Whether the expectation can only be judged with captured output.
    pub open spec fn needs_output(self) -> bool {
        self is Output || self is CodeWithOutput || self is SuccessWithOutput
            || self is FailureWithOutput
    }

    /// Whether `result` is what the expectation asks for.
    pub open spec fn allows(self, result: ResultView) -> bool {
        match self {
            ExpectView::Code(n) => result.code == Some(n),
            ExpectView::Output(pattern) => result.shows(pattern),
            ExpectView::CodeWithOutput(n, pattern) => result.code == Some(n) && result.shows(
                pattern,
            ),
            ExpectView::SuccessWithOutput(pattern) => result.success() && result.shows(pattern),
            ExpectView::FailureWithOutput(pattern) => !result.success() && result.shows(pattern),
            ExpectView::Success => result.success(),
            ExpectView::Failure => !result.success(),
            ExpectView::Any => true,
        }
    }
}

impl View for Expect {
    type V = ExpectView;

    open spec fn view(&self) -> ExpectView {
        match self {
            Expect::Code(n) => ExpectView::Code(*n),
            Expect::Output(pattern) => ExpectView::Output(pattern@),
            Expect::CodeWithOutput(pair) => ExpectView::CodeWithOutput(pair.0, pair.1@),
            Expect::SuccessWithOutput(pattern) => ExpectView::SuccessWithOutput(pattern@),
            Expect::FailureWithOutput(pattern) => ExpectView::FailureWithOutput(pattern@),
            Expect::Success => ExpectView::Success,
            Expect::Failure => ExpectView::Failure,
            Expect::Any => ExpectView::Any,
        }
    }
}

impl Expect {
    /// Whether the expectation can only be judged with captured output.
    pub fn needs_output(&self) -> (needs: bool)
        ensures
            needs == self@.needs_output(),
    {
        match self {
            Expect::Output(_) => true,
            Expect::CodeWithOutput(_) => true,
            Expect::SuccessWithOutput(_) => true,
            Expect::FailureWithOutput(_) => true,
            _ => false,
        }
    }

    /// Compares a finished process with the expectation. Nothing is run.
    pub fn verify(&self, result: &ExecutionResult) -> (matched: bool)
        ensures
            matched == self@.allows(result@),
    {
        match self {
            Expect::Code(n) => result.exited_with(*n),
            Expect::Output(pattern) => result.shows(pattern.as_str()),
            Expect::CodeWithOutput(pair) => result.exited_with(pair.0) && result.shows(
                pair.1.as_str(),
            ),
            Expect::SuccessWithOutput(pattern) => result.success() && result.shows(
                pattern.as_str(),
            ),
            Expect::FailureWithOutput(pattern) => !result.success() && result.shows(
                pattern.as_str(),
            ),
            Expect::Success => result.success(),
            Expect::Failure => !result.success(),
            Expect::Any => true,
        }
    }
}

/// What a spawned process sees of a variable: the overlay's value where
/// the overlay sets it, else what is inherited, unchanged.
pub proof fn law_overlay_wins(
    inherited: Map<Seq<char>, Seq<char>>,
    overlay: Map<Seq<char>, Seq<char>>,
    name: Seq<char>,
)
    ensures
        overlay.dom().contains(name) ==> inherited.union_prefer_right(overlay).dom().contains(name)
            && inherited.union_prefer_right(overlay)[name] == overlay[name],
        !overlay.dom().contains(name) ==> inherited.union_prefer_right(overlay).dom().contains(name)
            == inherited.dom().contains(name),
        !overlay.dom().contains(name) && inherited.dom().contains(name)
            ==> inherited.union_prefer_right(overlay)[name] == inherited[name],
{
}

} // verus!
