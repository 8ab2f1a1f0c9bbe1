//! The counters that the transport bumps, and the label values each is bumped under.

use vstd::prelude::*;

verus! {

/// Why the store-resolution counter is bumped.
#[derive(Clone, Copy, Debug, PartialEq, Eq, Structural)]
pub enum ResolveLabel {
    /// A message met a resolution that is still running.
    Resolving,
    /// A resolution starts for a message with a snapshot.
    Snap,
    /// A resolution starts for any other message.
    Store,
    /// A resolution ended without an address.
    Failed,
    /// A resolution ended with an address.
    Success,
}

/// What failed, for the failure-report counter.
#[derive(Clone, Copy, Debug, PartialEq, Eq, Structural)]
pub enum FailureKind {
    Unreachable,
    Snapshot,
}

/// One bump of a counter.
#[derive(Clone, Copy, Debug, PartialEq, Eq, Structural)]
pub enum Counter {
    ResolveStore(ResolveLabel),
    ReportFailure { kind: FailureKind, store_id: u64 },
}

/// The decimal digit that stands for `d`.
pub open spec fn digit(d: nat) -> char {
    ('0' as nat + d) as char
}

/// `n` in decimal, without leading zeros.
pub open spec fn decimal(n: nat) -> Seq<char>
    decreases n,
{
    if n < 10 {
        seq![digit(n)]
    } else {
        decimal(n / 10).push(digit(n % 10))
    }
}

fn digit_text(d: u64) -> (text: &'static str)
    requires
        d < 10,
    ensures
        text@ == seq![digit(d as nat)],
{
    proof {
        reveal_strlit("0");
        reveal_strlit("1");
        reveal_strlit("2");
        reveal_strlit("3");
        reveal_strlit("4");
        reveal_strlit("5");
        reveal_strlit("6");
        reveal_strlit("7");
        reveal_strlit("8");
        reveal_strlit("9");
    }
    match d {
        0 => "0",
        1 => "1",
        2 => "2",
        3 => "3",
        4 => "4",
        5 => "5",
        6 => "6",
        7 => "7",
        8 => "8",
        _ => "9",
    }
}

/// The label value under which a store's counters are kept: its id in decimal.
pub fn store_label(store_id: u64) -> (label: String)
    ensures
        label@ == decimal(store_id as nat),
    decreases store_id,
{
    if store_id < 10 {
        digit_text(store_id).to_owned()
    } else {
        let mut label = store_label(store_id / 10);
        label.append(digit_text(store_id % 10));
        label
    }
}

impl ResolveLabel {
    pub open spec fn spec_text(self) -> Seq<char> {
        match self {
            ResolveLabel::Resolving => "resolving"@,
            ResolveLabel::Snap => "snap"@,
            ResolveLabel::Store => "store"@,
            ResolveLabel::Failed => "failed"@,
            ResolveLabel::Success => "success"@,
        }
    }

    pub fn text(self) -> (text: &'static str)
        ensures
            text@ == self.spec_text(),
    {
        match self {
            ResolveLabel::Resolving => "resolving",
            ResolveLabel::Snap => "snap",
            ResolveLabel::Store => "store",
            ResolveLabel::Failed => "failed",
            ResolveLabel::Success => "success",
        }
    }
}

impl FailureKind {
    pub open spec fn spec_text(self) -> Seq<char> {
        match self {
            FailureKind::Unreachable => "unreachable"@,
            FailureKind::Snapshot => "snapshot"@,
        }
    }

    pub fn text(self) -> (text: &'static str)
        ensures
            text@ == self.spec_text(),
    {
        match self {
            FailureKind::Unreachable => "unreachable",
            FailureKind::Snapshot => "snapshot",
        }
    }
}

impl Counter {
    /// The label values, in the order of the counter's labels.
    pub open spec fn spec_label_values(self) -> Seq<Seq<char>> {
        match self {
            Counter::ResolveStore(label) => seq![label.spec_text()],
            Counter::ReportFailure { kind, store_id } => seq![
                kind.spec_text(),
                decimal(store_id as nat),
            ],
        }
    }

    pub fn label_values(self) -> (values: Vec<String>)
        ensures
            values@.map_values(|value: String| value@) == self.spec_label_values(),
    {
        let mut values: Vec<String> = Vec::new();
        match self {
            Counter::ResolveStore(label) => {
                values.push(label.text().to_owned());
            },
            Counter::ReportFailure { kind, store_id } => {
                values.push(kind.text().to_owned());
                values.push(store_label(store_id));
            },
        }
        assert(values@.map_values(|value: String| value@) =~= self.spec_label_values());
        values
    }
}

} // verus!
