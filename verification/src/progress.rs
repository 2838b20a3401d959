//! A hierarchical progress tree.
//!
//! A [`ProgressNode`] represents one unit of measurable work: a counter, an
//! optional declared maximum, an optional unit label, and an ordered list of
//! child nodes for sub-operations. The operation that owns a node drives it
//! through [`ProgressNode::inc`] and [`ProgressNode::set_max`]; an observer
//! reads the fields.

use vstd::prelude::*;

verus! {

/// How a renderer should display a node's counter.
#[derive(Debug, Clone, Copy, PartialEq, Eq, Structural)]
pub enum DisplayMode {
    /// Bare counter.
    Plain,
    /// Counter with a throughput estimate.
    WithThroughput,
    /// Counter with throughput and a percentage of the declared maximum.
    WithThroughputAndPercentage,
}

/// The unit a node counts in: a label such as `"files"`, together with the
/// display mode a renderer should use for it.
#[derive(Debug, Clone)]
pub struct Unit {
    /// Label of the counted unit.
    pub label: String,
    /// Display mode for the counter.
    pub mode: DisplayMode,
}

/// Builds a [`Unit`] from a label and a display mode.
pub fn label_and_mode(label: String, mode: DisplayMode) -> (r: Unit)
    ensures
        r.label == label,
        r.mode == mode,
{
    Unit { label, mode }
}

/// One node of the progress tree.
///
/// `current` never runs ahead of the work actually accounted for; when work
/// is discovered incrementally, `max_value` is raised first and `current`
/// catches up as units complete. Children are kept in creation order, which
/// is also their display order.
#[derive(Debug)]
pub struct ProgressNode {
    /// Human-readable name of the tracked operation.
    pub label: String,
    /// Units of work completed so far.
    pub current: u64,
    /// Declared amount of expected work, if known.
    pub max_value: Option<u64>,
    /// What one unit of work is, if declared.
    pub unit: Option<Unit>,
    /// Sub-operations, in creation order.
    pub children: Vec<ProgressNode>,
    /// Final message, once the node was marked done.
    pub completion: Option<String>,
}

impl ProgressNode {
    /// The declared maximum, with an unset maximum counting as zero. This is
    /// the base that incremental discovery extends.
    pub open spec fn max_or_zero(&self) -> int {
        match self.max_value {
            Some(m) => m as int,
            None => 0,
        }
    }

    /// A fresh node: counter at zero, nothing declared, no children.
    pub fn new(label: String) -> (r: ProgressNode)
        ensures
            r.label == label,
            r.current == 0,
            r.max_value is None,
            r.unit is None,
            r.children@ =~= Seq::<ProgressNode>::empty(),
            r.completion is None,
    {
        ProgressNode {
            label,
            current: 0,
            max_value: None,
            unit: None,
            children: Vec::new(),
            completion: None,
        }
    }

    /// Creates and registers a new child under this node and returns its
    /// position among the children.
    pub fn add_child(&mut self, label: String) -> (idx: usize)
        ensures
            idx == old(self).children@.len(),
            final(self).children@.len() == old(self).children@.len() + 1,
            final(self).children@.subrange(0, old(self).children@.len() as int)
                == old(self).children@,
            final(self).children@.last().label == label,
            final(self).children@.last().current == 0,
            final(self).children@.last().max_value is None,
            final(self).children@.last().unit is None,
            final(self).children@.last().children@.len() == 0,
            final(self).children@.last().completion is None,
            final(self).label == old(self).label,
            final(self).current == old(self).current,
            final(self).max_value == old(self).max_value,
            final(self).unit == old(self).unit,
            final(self).completion == old(self).completion,
    {
        let idx = self.children.len();
        let child = ProgressNode::new(label);
        self.children.push(child);
        proof {
            assert(self.children@.subrange(0, old(self).children@.len() as int)
                =~= old(self).children@);
        }
        idx
    }

    /// Declares the expected amount of work and its unit. `max` may be `None`
    /// for open-ended work whose size is not yet known.
    pub fn init(&mut self, max: Option<u64>, unit: Option<Unit>)
        ensures
            *final(self) == (ProgressNode { max_value: max, unit, ..*old(self) }),
    {
        self.max_value = max;
        self.unit = unit;
    }

    /// Advances the counter by one unit of completed work.
    pub fn inc(&mut self)
        requires
            old(self).current < u64::MAX,
        ensures
            *final(self) == (ProgressNode {
                current: (old(self).current + 1) as u64,
                ..*old(self)
            }),
    {
        self.current = self.current + 1;
    }

    /// Raises (or sets, or retracts) the declared maximum; used when work is
    /// discovered incrementally.
    pub fn set_max(&mut self, new_max: Option<u64>)
        ensures
            *final(self) == (ProgressNode { max_value: new_max, ..*old(self) }),
    {
        self.max_value = new_max;
    }

    /// The declared maximum, if any.
    pub fn max(&self) -> (r: Option<u64>)
        ensures
            r == self.max_value,
    {
        self.max_value
    }

    /// Marks the node complete and attaches a final message. Logical
    /// completion is a signal to observers; it does not freeze the counter.
    pub fn done(&mut self, message: String)
        ensures
            *final(self) == (ProgressNode { completion: Some(message), ..*old(self) }),
    {
        self.completion = Some(message);
    }
}

} // verus!
