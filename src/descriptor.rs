use vstd::prelude::*;

verus! {

/// What a parser of the hardware descriptor blob reports: the model name, the
/// number of core entries, and the start of the first memory region, if any.
#[derive(Debug)]
pub struct Topology {
    pub model: String,
    pub core_count: usize,
    pub first_memory_start: Option<usize>,
}

/// The platform description the bootstrap core works from.
#[derive(Debug)]
pub struct Descriptor {
    pub model: String,
    pub core_count: usize,
    pub memory_start: usize,
}

/// Why a descriptor could not be resolved. Both are fatal to the bootstrap core.
#[derive(Clone, Copy, Debug, PartialEq, Eq, Structural)]
pub enum DescriptorError {
    /// The blob could not be parsed.
    Parse,
    /// The blob lists no memory region.
    NoMemoryRegion,
}

impl DescriptorError {
    /// The diagnostic that the bootstrap core aborts with.
    pub fn message(&self) -> (r: &'static str)
        ensures
            r@ == match self {
                DescriptorError::Parse => "Unable to parse device tree"@,
                DescriptorError::NoMemoryRegion => "Unable to locate DRAM start"@,
            },
    {
        match self {
            DescriptorError::Parse => "Unable to parse device tree",
            DescriptorError::NoMemoryRegion => "Unable to locate DRAM start",
        }
    }
}

/// The descriptor that a parse outcome yields, or the error it is fatal with.
pub open spec fn descriptor_from(t: Topology) -> Result<(Seq<char>, usize, usize), DescriptorError> {
    match t.first_memory_start {
        Some(start) => Ok((t.model@, t.core_count, start)),
        None => Err(DescriptorError::NoMemoryRegion),
    }
}

impl Descriptor {
    pub open spec fn view_tuple(self) -> (Seq<char>, usize, usize) {
        (self.model@, self.core_count, self.memory_start)
    }

    /// A copy of this descriptor.
    pub fn duplicate(&self) -> (r: Descriptor)
        ensures
            r.view_tuple() == self.view_tuple(),
    {
        Descriptor { model: self.model.clone(), core_count: self.core_count, memory_start: self.memory_start }
    }
}

/// `r` is what `resolve` returns for the parse outcome `p`: a parse error is
/// reported as such, a parsed blob as its descriptor or topology error.
pub open spec fn resolves_to(p: Result<Topology, DescriptorError>, r: Result<Descriptor, DescriptorError>) -> bool {
    match p {
        Ok(t) => match r {
            Ok(d) => descriptor_from(t) == Ok::<_, DescriptorError>(d.view_tuple()),
            Err(e) => descriptor_from(t) == Err::<(Seq<char>, usize, usize), _>(e),
        },
        Err(_) => r == Err::<Descriptor, _>(DescriptorError::Parse),
    }
}

/// A copy of a cached resolve outcome.
fn copy_outcome(o: &Result<Descriptor, DescriptorError>) -> (r: Result<Descriptor, DescriptorError>)
    ensures
        same_outcome(r, *o),
{
    match o {
        Ok(d) => Ok(d.duplicate()),
        Err(e) => Err(*e),
    }
}

/// Two resolve outcomes that hold the same descriptor or the same error.
pub open spec fn same_outcome(a: Result<Descriptor, DescriptorError>, b: Result<Descriptor, DescriptorError>) -> bool {
    match (a, b) {
        (Ok(x), Ok(y)) => x.view_tuple() == y.view_tuple(),
        (Err(x), Err(y)) => x == y,
        _ => false,
    }
}

/// Turns a parse outcome into a descriptor; a blob without memory regions is
/// a topology error.
pub fn descriptor_of(t: Topology) -> (r: Result<Descriptor, DescriptorError>)
    ensures
        match r {
            Ok(d) => descriptor_from(t) == Ok::<_, DescriptorError>(d.view_tuple()),
            Err(e) => descriptor_from(t) == Err::<(Seq<char>, usize, usize), _>(e),
        },
{
    match t.first_memory_start {
        Some(start) => Ok(Descriptor { model: t.model, core_count: t.core_count, memory_start: start }),
        None => Err(DescriptorError::NoMemoryRegion),
    }
}

/// Parse-once cache over the hardware descriptor. The first `resolve` runs
/// the parser; every later call answers from the cached outcome.
pub struct DescriptorStore {
    outcome: Option<Result<Descriptor, DescriptorError>>,
    /// How many times the parser has been run.
    parses: Ghost<nat>,
}

impl DescriptorStore {
    /// How many times this store has run a parser.
    pub closed spec fn parse_count(self) -> nat {
        self.parses@
    }

    pub closed spec fn cached(self) -> Option<Result<Descriptor, DescriptorError>> {
        self.outcome
    }

    /// The store's invariant: the parser has run exactly once if and only if
    /// an outcome is cached, and never otherwise.
    pub closed spec fn wf(self) -> bool {
        &&& self.outcome.is_some() ==> self.parses@ == 1
        &&& self.outcome.is_none() ==> self.parses@ == 0
    }

    /// However many times a well-formed store has been asked to resolve, and
    /// with whatever parsers, it has run a parser at most once.
    pub proof fn lemma_parse_at_most_once(self)
        requires
            self.wf(),
        ensures
            self.parse_count() <= 1,
    {
    }

    pub fn new() -> (r: DescriptorStore)
        ensures
            r.wf(),
            r.cached().is_none(),
            r.parse_count() == 0,
    {
        DescriptorStore { outcome: None, parses: Ghost(0) }
    }

    /// Returns the descriptor, running `parse` only if no outcome is cached yet.
    /// A parse failure or a blob without memory region is returned as an error,
    /// and cached like a success.
    pub fn resolve<F: FnOnce() -> Result<Topology, DescriptorError>>(&mut self, parse: F) -> (r: Result<Descriptor, DescriptorError>)
        requires
            old(self).wf(),
            parse.requires(()),
        ensures
            final(self).wf(),
            final(self).parse_count() <= 1,
            final(self).cached() is Some,
            same_outcome(r, final(self).cached().unwrap()),
            old(self).cached() is Some ==> final(self).cached() == old(self).cached(),
            old(self).cached() is Some ==> final(self).parse_count() == old(self).parse_count(),
            old(self).cached() is None ==> final(self).parse_count() == 1 && exists|p: Result<Topology, DescriptorError>|
                #[trigger] parse.ensures((), p) && resolves_to(p, r),
    {
        match &self.outcome {
            Some(cached) => {
                return copy_outcome(cached);
            },
            None => {},
        }
        let p = parse();
        let r = match p {
            Ok(t) => descriptor_of(t),
            Err(_) => Err(DescriptorError::Parse),
        };
        let kept = copy_outcome(&r);
        self.outcome = Some(kept);
        self.parses = Ghost(self.parses@ + 1);
        r
    }
}

} // verus!
