use vstd::prelude::*;
use crate::cell::{CellModel, LatchState, InitError, LazyCell, fresh, model_wf};
use crate::pattern::{CompiledPattern, compiles, finds_match};

verus! {

/// A pattern that accepts email addresses of the usual `local@domain` shape.
pub const LONG_REGEX: &'static str = r#"[a-z0-9!#$%&'*+/=?^_`{|}~-]+(?:\.[a-z0-9!#$%&'*+/=?^_`{|}~-]+)*@(?:[a-z0-9](?:[a-z0-9-]*[a-z0-9])?\.)+[a-z0-9](?:[a-z0-9-]*[a-z0-9])?"#;

/// An address that `LONG_REGEX` accepts.
pub const TEST_EMAIL: &'static str = "name@example.com";

/// A text that holds no address.
pub const TEST_NOT_EMAIL: &'static str = "Hello world!";

/// A regular expression that is compiled on first use, at most once, and
/// then shared by every later use.
pub struct CompiledRegex {
    pattern: String,
    cell: LazyCell<CompiledPattern>,
}

impl CompiledRegex {
    /// The pattern that is compiled on first use.
    pub closed spec fn pattern(&self) -> Seq<char> {
        self.pattern@
    }

    /// The state of the cell that holds the compiled regex.
    pub closed spec fn model(&self) -> CellModel<CompiledPattern> {
        self.cell@
    }

    /// The cell is well formed and never left running; a compiled regex in it
    /// comes from this pattern, and the cell is done or poisoned as the
    /// pattern compiles or not.
    pub closed spec fn wf(&self) -> bool {
        &&& model_wf(self.cell@)
        &&& self.cell@.state != LatchState::Running
        &&& self.cell@.state == LatchState::Done ==> compiles(self.pattern@)
            && self.cell@.slot.unwrap().source() == self.pattern@
        &&& self.cell@.state == LatchState::Poisoned ==> !compiles(self.pattern@)
    }

    /// A regex for `pattern` that is not compiled yet.
    pub fn new(pattern: &str) -> (r: CompiledRegex)
        ensures
            r.wf(),
            r.pattern() == pattern@,
            r.model() == fresh::<CompiledPattern>(),
    {
        CompiledRegex { pattern: pattern.to_owned(), cell: LazyCell::new() }
    }

    /// The email regex `LONG_REGEX`, not compiled yet.
    pub fn email() -> (r: CompiledRegex)
        ensures
            r.wf(),
            r.pattern() == LONG_REGEX@,
            r.model() == fresh::<CompiledPattern>(),
    {
        CompiledRegex::new(LONG_REGEX)
    }

    /// The compiled regex. The first call compiles the pattern; every later
    /// call hands back what the first produced, without compiling again. A
    /// pattern that does not compile poisons the regex, and every call fails.
    pub fn force(&mut self) -> (r: Result<&CompiledPattern, InitError>)
        requires
            old(self).wf(),
        ensures
            final(self).wf(),
            final(self).pattern() == old(self).pattern(),
            final(self).model().runs == 1,
            final(self).model().state == (if compiles(old(self).pattern()) {
                LatchState::Done
            } else {
                LatchState::Poisoned
            }),
            compiles(old(self).pattern()) ==> (final(self).model().slot matches Some(p)
                && p.source() == old(self).pattern()),
            !compiles(old(self).pattern()) ==> final(self).model().slot is None,
            old(self).model().state != LatchState::NotStarted ==> final(self).model() == old(
                self,
            ).model(),
            r is Ok <==> compiles(old(self).pattern()),
            r matches Ok(p) ==> p.source() == old(self).pattern() && final(self).model().slot
                == Some(*p),
            r is Err ==> r == Err::<&CompiledPattern, InitError>(InitError::InitializationFailure),
    {
        let pattern = &self.pattern;
        let compile = || -> (out: Option<CompiledPattern>)
            ensures
                out is Some <==> compiles(pattern@),
                out matches Some(p) ==> p.source() == pattern@,
            {
                match CompiledPattern::compile(pattern.as_str()) {
                    Ok(p) => Some(p),
                    Err(_) => None,
                }
            };
        self.cell.get_or_init(compile)
    }

    /// Whether the regex matches somewhere in `text`, compiling it first if
    /// this is its first use; fails when the pattern does not compile.
    pub fn is_match(&mut self, text: &str) -> (r: Result<bool, InitError>)
        requires
            old(self).wf(),
        ensures
            final(self).wf(),
            final(self).pattern() == old(self).pattern(),
            final(self).model().runs == 1,
            final(self).model().state == (if compiles(old(self).pattern()) {
                LatchState::Done
            } else {
                LatchState::Poisoned
            }),
            compiles(old(self).pattern()) ==> (final(self).model().slot matches Some(p)
                && p.source() == old(self).pattern()),
            !compiles(old(self).pattern()) ==> final(self).model().slot is None,
            old(self).model().state != LatchState::NotStarted ==> final(self).model() == old(
                self,
            ).model(),
            r == (if compiles(old(self).pattern()) {
                Ok::<bool, InitError>(finds_match(old(self).pattern(), text@))
            } else {
                Err::<bool, InitError>(InitError::InitializationFailure)
            }),
    {
        match self.force() {
            Ok(p) => Ok(p.is_match(text)),
            Err(e) => Err(e),
        }
    }

    /// How many times the pattern has been compiled: 0 or 1.
    pub fn compilations(&self) -> (n: u8)
        requires
            self.wf(),
        ensures
            n as nat == self.model().runs,
            n <= 1,
    {
        self.cell.init_runs()
    }
}

} // verus!
