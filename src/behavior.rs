use vstd::prelude::*;

verus! {

/// The state of a node's cache: the cycle its output was computed for, the output,
/// and how many times it has been computed.
pub struct CacheState<T> {
    pub stamp: Option<u64>,
    pub output: T,
    pub evaluations: nat,
}

impl<T> CacheState<T> {
    /// The state after a pull for `cycle`, where `fresh` is what a computation
    /// would return: within the cycle already cached nothing changes; otherwise
    /// the output is recomputed once and stamped with the cycle.
    pub open spec fn pulled(self, cycle: u64, fresh: T) -> CacheState<T> {
        if self.stamp == Some(cycle) {
            self
        } else {
            CacheState { stamp: Some(cycle), output: fresh, evaluations: self.evaluations + 1 }
        }
    }
}

/// The output slot of a behavior node with its cycle stamp. A node computes its
/// output at most once per cycle number; further pulls in that cycle see the
/// cached value, however many dependents the node has.
pub struct CycleCache<T> {
    stamp: Option<u64>,
    output: T,
    evaluations: Ghost<nat>,
}

impl<T> View for CycleCache<T> {
    type V = CacheState<T>;

    closed spec fn view(&self) -> CacheState<T> {
        CacheState { stamp: self.stamp, output: self.output, evaluations: self.evaluations@ }
    }
}

impl<T> CycleCache<T> {
    /// A cache that holds `initial` and no cycle yet.
    pub fn new(initial: T) -> (c: CycleCache<T>)
        ensures
            c@ == (CacheState { stamp: None, output: initial, evaluations: 0 }),
    {
        CycleCache { stamp: None, output: initial, evaluations: Ghost(0) }
    }

    /// Whether the output was computed for `cycle`.
    pub fn is_current(&self, cycle: u64) -> (r: bool)
        ensures
            r == (self@.stamp == Some(cycle)),
    {
        match self.stamp {
            Some(s) => s == cycle,
            None => false,
        }
    }

    /// The cached output.
    pub fn output(&self) -> (r: &T)
        ensures
            *r == self@.output,
    {
        &self.output
    }

    /// Brings the output up to `cycle`, calling `compute` only when the cycle is new.
    pub fn pull<F: FnOnce(u64) -> T>(&mut self, cycle: u64, compute: F)
        requires
            old(self)@.stamp != Some(cycle) ==> compute.requires((cycle,)),
        ensures
            final(self)@ == old(self)@.pulled(cycle, final(self)@.output),
            old(self)@.stamp != Some(cycle) ==> compute.ensures((cycle,), final(self)@.output),
    {
        if !self.is_current(cycle) {
            self.output = compute(cycle);
            self.stamp = Some(cycle);
            self.evaluations = Ghost(self.evaluations@ + 1);
        }
    }
}

/// A pull in a cycle already pulled changes nothing: a node with several
/// dependents, pulled by each of them in one cycle, computes its output once,
/// and every dependent sees the same output.
pub proof fn lemma_pull_once_per_cycle<T>(s: CacheState<T>, cycle: u64, first: T, second: T)
    ensures
        s.pulled(cycle, first).pulled(cycle, second) == s.pulled(cycle, first),
        s.pulled(cycle, first).evaluations <= s.evaluations + 1,
        s.pulled(cycle, first).stamp == Some(cycle),
{
}

/// The decimal digits of `n`.
pub open spec fn decimal(n: nat) -> Seq<char>
    decreases n,
{
    if n < 10 {
        seq![(n + 48) as char]
    } else {
        decimal(n / 10).push(((n % 10) + 48) as char)
    }
}

/// The name given to the anonymous node numbered `id`.
pub open spec fn anon_name(id: u64) -> Seq<char> {
    seq!['A', 'N', '_'] + decimal(id as nat)
}

/// Relies on `format!` with `Display` for integers: "AN_" then the decimal digits of `id`.
#[verifier::external_body]
fn format_anon_name(id: u64) -> (r: String)
    ensures
        r@ == anon_name(id),
{
    format!("AN_{}", id)
}

/// Hands out names for nodes built without one: AN_0, AN_1, ...
pub struct NameAllocator {
    next: u64,
}

impl NameAllocator {
    pub closed spec fn spec_next(&self) -> u64 {
        self.next
    }

    pub fn new() -> (a: NameAllocator)
        ensures
            a.spec_next() == 0,
    {
        NameAllocator { next: 0 }
    }

    pub fn next_id(&self) -> (r: u64)
        ensures
            r == self.spec_next(),
    {
        self.next
    }

    /// The next anonymous name.
    pub fn get_next_anon_name(&mut self) -> (name: String)
        requires
            old(self).spec_next() < u64::MAX,
        ensures
            name@ == anon_name(old(self).spec_next()),
            final(self).spec_next() == old(self).spec_next() + 1,
    {
        let id = self.next;
        self.next = self.next + 1;
        format_anon_name(id)
    }
}

/// A node's name: the one given, or else the next anonymous one.
pub fn get_behavior_name(name: Option<&str>, names: &mut NameAllocator) -> (r: String)
    requires
        name is None ==> old(names).spec_next() < u64::MAX,
    ensures
        name matches Some(n) ==> r@ == n@ && final(names).spec_next() == old(names).spec_next(),
        name is None ==> r@ == anon_name(old(names).spec_next()) && final(names).spec_next() == old(
            names,
        ).spec_next() + 1,
{
    match name {
        Some(n) => n.to_owned(),
        None => names.get_next_anon_name(),
    }
}

} // verus!
