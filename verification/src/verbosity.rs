use vstd::prelude::*;

verus! {

/// The scope of a log entry, and the threshold of a pool or of a query.
///
/// The levels are ordered `Silent < Error < Warn < Info < Debug`, from the
/// most restrictive to the most permissive. `Silent` is meant for thresholds
/// only: an entry tagged `Silent` passes every filter.
#[derive(Debug, Clone, Copy, PartialEq, Eq, PartialOrd, Ord, Structural)]
pub enum Verbosity {
    Silent,
    Error,
    Warn,
    Info,
    Debug,
}

impl DeepView for Verbosity {
    type V = Verbosity;

    open spec fn deep_view(&self) -> Verbosity {
        *self
    }
}

impl Verbosity {
    /// The position of the level in the order, `Silent` being 0.
    pub open spec fn rank(self) -> nat {
        match self {
            Verbosity::Silent => 0,
            Verbosity::Error => 1,
            Verbosity::Warn => 2,
            Verbosity::Info => 3,
            Verbosity::Debug => 4,
        }
    }

    /// `self <= bound` in the order of the levels.
    pub open spec fn within(self, bound: Verbosity) -> bool {
        self.rank() <= bound.rank()
    }

    /// The name of the level as it is written on the console.
    pub open spec fn label(self) -> Seq<char> {
        match self {
            Verbosity::Silent => "Silent"@,
            Verbosity::Error => "Error"@,
            Verbosity::Warn => "Warn"@,
            Verbosity::Info => "Info"@,
            Verbosity::Debug => "Debug"@,
        }
    }

    /// The position of the level in the order.
    pub fn level(self) -> (r: u8)
        ensures
            r == self.rank(),
    {
        match self {
            Verbosity::Silent => 0,
            Verbosity::Error => 1,
            Verbosity::Warn => 2,
            Verbosity::Info => 3,
            Verbosity::Debug => 4,
        }
    }

    /// Whether `self <= bound`.
    pub fn is_within(self, bound: Verbosity) -> (b: bool)
        ensures
            b == self.within(bound),
    {
        self.level() <= bound.level()
    }

    /// The name of the level.
    pub fn name(self) -> (s: &'static str)
        ensures
            s@ == self.label(),
    {
        match self {
            Verbosity::Silent => "Silent",
            Verbosity::Error => "Error",
            Verbosity::Warn => "Warn",
            Verbosity::Info => "Info",
            Verbosity::Debug => "Debug",
        }
    }
}

/// The order of the levels is total: any two levels compare.
pub proof fn lemma_order_total(a: Verbosity, b: Verbosity)
    ensures
        a.within(b) || b.within(a),
{
}

/// The order of the levels is antisymmetric: two levels that bound each
/// other are the same level.
pub proof fn lemma_order_antisymmetric(a: Verbosity, b: Verbosity)
    requires
        a.within(b),
        b.within(a),
    ensures
        a == b,
{
}

/// The order of the levels is transitive.
pub proof fn lemma_order_transitive(a: Verbosity, b: Verbosity, c: Verbosity)
    requires
        a.within(b),
        b.within(c),
    ensures
        a.within(c),
{
}

/// `Silent` is the least level and `Debug` the greatest.
pub proof fn lemma_order_bounds(a: Verbosity)
    ensures
        Verbosity::Silent.within(a),
        a.within(Verbosity::Debug),
        a.within(Verbosity::Silent) ==> a == Verbosity::Silent,
{
}

} // verus!
