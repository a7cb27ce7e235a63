use vstd::prelude::*;

verus! {

/// A batch of events fetched from a block range.
#[derive(Debug, Clone)]
pub struct EventBatch<T> {
    pub events: Vec<T>,
    pub from_block: u64,
    pub to_block: u64,
}

impl<T> EventBatch<T> {
    pub fn new(events: Vec<T>, from_block: u64, to_block: u64) -> (batch: Self)
        ensures
            batch.events@ == events@,
            batch.from_block == from_block,
            batch.to_block == to_block,
    {
        EventBatch { events, from_block, to_block }
    }

    pub fn is_empty(&self) -> (r: bool)
        ensures
            r == (self.events@.len() == 0),
    {
        self.events.len() == 0
    }

    pub fn len(&self) -> (r: usize)
        ensures
            r == self.events@.len(),
    {
        self.events.len()
    }
}

/// Identifies the type of on-chain event for block progress tracking.
#[derive(Debug, Clone, Copy, Hash, PartialEq, Eq, Structural)]
pub enum EventType {
    Ido,
    Token,
    Swap,
    Lp,
    Price,
}

/// The label under which an event type's progress is stored.
pub open spec fn event_type_label(et: EventType) -> Seq<char> {
    match et {
        EventType::Ido => seq!['i', 'd', 'o'],
        EventType::Token => seq!['t', 'o', 'k', 'e', 'n'],
        EventType::Swap => seq!['s', 'w', 'a', 'p'],
        EventType::Lp => seq!['l', 'p'],
        EventType::Price => seq!['p', 'r', 'i', 'c', 'e'],
    }
}

/// Every event type, in declaration order.
pub open spec fn all_event_types() -> Seq<EventType> {
    seq![EventType::Ido, EventType::Token, EventType::Swap, EventType::Lp, EventType::Price]
}

/// The event types that must be processed up to a block before `et` may process it.
pub open spec fn event_dependencies(et: EventType) -> Seq<EventType> {
    match et {
        EventType::Ido => seq![],
        EventType::Token => seq![EventType::Ido],
        EventType::Swap => seq![EventType::Ido],
        EventType::Lp => seq![EventType::Ido],
        EventType::Price => seq![EventType::Swap],
    }
}

/// Length of the longest dependency chain that starts at `et`.
pub open spec fn dependency_depth(et: EventType) -> nat {
    match et {
        EventType::Ido => 0,
        EventType::Token => 1,
        EventType::Swap => 1,
        EventType::Lp => 1,
        EventType::Price => 2,
    }
}

/// `target` can be reached from `start` by following at most `steps` dependency edges
/// (and at least one).
pub open spec fn depends_within(start: EventType, target: EventType, steps: nat) -> bool
    decreases steps,
{
    if steps == 0 {
        false
    } else {
        exists|i: int|
            0 <= i < event_dependencies(start).len() && (event_dependencies(start)[i] == target
                || depends_within(event_dependencies(start)[i], target, (steps - 1) as nat))
    }
}

impl EventType {
    pub fn as_str(&self) -> (r: &'static str)
        ensures
            r@ == event_type_label(*self),
    {
        match self {
            EventType::Ido => {
                proof {
                    reveal_strlit("ido");
                }
                "ido"
            },
            EventType::Token => {
                proof {
                    reveal_strlit("token");
                }
                "token"
            },
            EventType::Swap => {
                proof {
                    reveal_strlit("swap");
                }
                "swap"
            },
            EventType::Lp => {
                proof {
                    reveal_strlit("lp");
                }
                "lp"
            },
            EventType::Price => {
                proof {
                    reveal_strlit("price");
                }
                "price"
            },
        }
    }

    /// The text form of the event type (its label).
    pub fn to_string(&self) -> (r: String)
        ensures
            r@ == event_type_label(*self),
    {
        String::from_str(self.as_str())
    }

    pub fn all() -> (r: &'static [EventType])
        ensures
            r@ == all_event_types(),
    {
        &[EventType::Ido, EventType::Token, EventType::Swap, EventType::Lp, EventType::Price]
    }

    /// Returns the event types this type depends on for ordering.
    pub fn dependencies(&self) -> (r: &'static [EventType])
        ensures
            r@ == event_dependencies(*self),
    {
        match self {
            EventType::Ido => &[],
            EventType::Token => &[EventType::Ido],
            EventType::Swap => &[EventType::Ido],
            EventType::Lp => &[EventType::Ido],
            EventType::Price => &[EventType::Swap],
        }
    }
}

/// Every event type appears in `all` exactly once.
pub proof fn lemma_all_event_types_complete_and_distinct(et: EventType)
    ensures
        all_event_types().contains(et),
        forall|i: int, j: int|
            0 <= i < j < all_event_types().len() ==> all_event_types()[i]
                != all_event_types()[j],
{
    match et {
        EventType::Ido => assert(all_event_types()[0] == et),
        EventType::Token => assert(all_event_types()[1] == et),
        EventType::Swap => assert(all_event_types()[2] == et),
        EventType::Lp => assert(all_event_types()[3] == et),
        EventType::Price => assert(all_event_types()[4] == et),
    }
}

/// Every dependency of an event type sits strictly lower in the dependency order.
pub proof fn lemma_dependencies_decrease_depth(et: EventType, i: int)
    requires
        0 <= i < event_dependencies(et).len(),
    ensures
        dependency_depth(event_dependencies(et)[i]) < dependency_depth(et),
{
}

/// Following dependency edges always leads strictly down the dependency order.
pub proof fn lemma_reachable_is_lower(start: EventType, target: EventType, steps: nat)
    requires
        depends_within(start, target, steps),
    ensures
        dependency_depth(target) < dependency_depth(start),
    decreases steps,
{
    let i = choose|i: int|
        0 <= i < event_dependencies(start).len() && (event_dependencies(start)[i] == target
            || depends_within(event_dependencies(start)[i], target, (steps - 1) as nat));
    lemma_dependencies_decrease_depth(start, i);
    if event_dependencies(start)[i] != target {
        lemma_reachable_is_lower(event_dependencies(start)[i], target, (steps - 1) as nat);
    }
}

/// The dependency graph has no cycles: no event type depends on itself,
/// directly or through any chain of dependencies.
pub proof fn lemma_dependency_graph_acyclic(et: EventType, steps: nat)
    ensures
        !depends_within(et, et, steps),
        !event_dependencies(et).contains(et),
{
    if depends_within(et, et, steps) {
        lemma_reachable_is_lower(et, et, steps);
    }
    if event_dependencies(et).contains(et) {
        let i = choose|i: int| 0 <= i < event_dependencies(et).len() && event_dependencies(et)[i] == et;
        lemma_dependencies_decrease_depth(et, i);
    }
}

} // verus!
