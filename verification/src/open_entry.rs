use crate::text::{
    rank_text, text_rank, text_rank_mirror, text_rank_same, text_rank_transitive, Rank,
};
use vstd::prelude::*;

verus! {

/// Durable identity of a node of the variable tree: the path of names that
/// leads to it, never the transient reference a debug session hands out.
#[derive(Debug, PartialEq, Eq, PartialOrd, Ord)]
pub enum OpenEntry {
    Scope { name: String },
    Variable { scope_name: String, name: String, depth: usize },
}

/// Mathematical value of an [`OpenEntry`].
pub ghost enum OpenEntryView {
    Scope { name: Seq<char> },
    Variable { scope_name: Seq<char>, name: Seq<char>, depth: nat },
}

impl View for OpenEntry {
    type V = OpenEntryView;

    open spec fn view(&self) -> OpenEntryView {
        match self {
            OpenEntry::Scope { name } => OpenEntryView::Scope { name: name@ },
            OpenEntry::Variable { scope_name, name, depth } => OpenEntryView::Variable {
                scope_name: scope_name@,
                name: name@,
                depth: *depth as nat,
            },
        }
    }
}

/// Order of two natural numbers.
pub open spec fn nat_rank(a: nat, b: nat) -> Rank {
    if a < b {
        Rank::Before
    } else if a == b {
        Rank::Same
    } else {
        Rank::After
    }
}

/// The first rank decides unless it is `Same`; then the second does.
pub open spec fn rank_then(first: Rank, second: Rank) -> Rank {
    if first == Rank::Same {
        second
    } else {
        first
    }
}

/// Total order on identities: every scope stands before every variable;
/// scopes go by name; variables by scope name, then name, then depth.
pub open spec fn entry_rank(a: OpenEntryView, b: OpenEntryView) -> Rank {
    match (a, b) {
        (OpenEntryView::Scope { name: x }, OpenEntryView::Scope { name: y }) => text_rank(x, y),
        (OpenEntryView::Scope { .. }, OpenEntryView::Variable { .. }) => Rank::Before,
        (OpenEntryView::Variable { .. }, OpenEntryView::Scope { .. }) => Rank::After,
        (
            OpenEntryView::Variable { scope_name: sa, name: na, depth: da },
            OpenEntryView::Variable { scope_name: sb, name: nb, depth: db },
        ) => rank_then(text_rank(sa, sb), rank_then(text_rank(na, nb), nat_rank(da, db))),
    }
}

/// Two identities rank `Same` exactly when they are equal.
pub proof fn entry_rank_same(a: OpenEntryView, b: OpenEntryView)
    ensures
        entry_rank(a, b) == Rank::Same <==> a == b,
{
    match (a, b) {
        (OpenEntryView::Scope { name: x }, OpenEntryView::Scope { name: y }) => {
            text_rank_same(x, y);
        },
        (
            OpenEntryView::Variable { scope_name: sa, name: na, depth: da },
            OpenEntryView::Variable { scope_name: sb, name: nb, depth: db },
        ) => {
            text_rank_same(sa, sb);
            text_rank_same(na, nb);
        },
        _ => {},
    }
}

/// Swapping the arguments mirrors the rank.
pub proof fn entry_rank_mirror(a: OpenEntryView, b: OpenEntryView)
    ensures
        entry_rank(a, b) == Rank::Before <==> entry_rank(b, a) == Rank::After,
        entry_rank(a, b) == Rank::After <==> entry_rank(b, a) == Rank::Before,
        entry_rank(a, b) == Rank::Same <==> entry_rank(b, a) == Rank::Same,
{
    match (a, b) {
        (OpenEntryView::Scope { name: x }, OpenEntryView::Scope { name: y }) => {
            text_rank_mirror(x, y);
        },
        (
            OpenEntryView::Variable { scope_name: sa, name: na, depth: da },
            OpenEntryView::Variable { scope_name: sb, name: nb, depth: db },
        ) => {
            text_rank_mirror(sa, sb);
            text_rank_mirror(na, nb);
        },
        _ => {},
    }
}

/// `Before` is transitive.
pub proof fn entry_rank_transitive(a: OpenEntryView, b: OpenEntryView, c: OpenEntryView)
    requires
        entry_rank(a, b) == Rank::Before,
        entry_rank(b, c) == Rank::Before,
    ensures
        entry_rank(a, c) == Rank::Before,
{
    match (a, b, c) {
        (
            OpenEntryView::Scope { name: x },
            OpenEntryView::Scope { name: y },
            OpenEntryView::Scope { name: z },
        ) => {
            text_rank_transitive(x, y, z);
        },
        (
            OpenEntryView::Variable { scope_name: sa, name: na, depth: da },
            OpenEntryView::Variable { scope_name: sb, name: nb, depth: db },
            OpenEntryView::Variable { scope_name: sc, name: nc, depth: dc },
        ) => {
            text_rank_same(sa, sb);
            text_rank_same(sb, sc);
            text_rank_same(sa, sc);
            text_rank_same(na, nb);
            text_rank_same(nb, nc);
            text_rank_same(na, nc);
            if text_rank(sa, sb) == Rank::Before && text_rank(sb, sc) == Rank::Before {
                text_rank_transitive(sa, sb, sc);
            }
            if text_rank(na, nb) == Rank::Before && text_rank(nb, nc) == Rank::Before {
                text_rank_transitive(na, nb, nc);
            }
        },
        _ => {},
    }
}

impl Clone for OpenEntry {
    fn clone(&self) -> (r: Self)
        ensures
            r@ == self@,
    {
        match self {
            OpenEntry::Scope { name } => OpenEntry::Scope { name: name.clone() },
            OpenEntry::Variable { scope_name, name, depth } => OpenEntry::Variable {
                scope_name: scope_name.clone(),
                name: name.clone(),
                depth: *depth,
            },
        }
    }
}

impl OpenEntry {
    /// Identity of the scope called `name`.
    pub fn scope(name: &str) -> (r: OpenEntry)
        ensures
            r@ == (OpenEntryView::Scope { name: name@ }),
    {
        OpenEntry::Scope { name: name.to_owned() }
    }

    /// Identity of the variable called `name` found `depth` levels below the
    /// scope called `scope_name`.
    pub fn variable(scope_name: &str, name: &str, depth: usize) -> (r: OpenEntry)
        ensures
            r@ == (OpenEntryView::Variable {
                scope_name: scope_name@,
                name: name@,
                depth: depth as nat,
            }),
    {
        OpenEntry::Variable { scope_name: scope_name.to_owned(), name: name.to_owned(), depth }
    }

    /// Whether `self` and `other` name the same node.
    pub fn same(&self, other: &OpenEntry) -> (r: bool)
        ensures
            r == (self@ == other@),
    {
        proof {
            entry_rank_same(self@, other@);
        }
        match self.rank(other) {
            Rank::Same => true,
            _ => false,
        }
    }

    /// Where `self` stands relative to `other` in the total order.
    pub fn rank(&self, other: &OpenEntry) -> (r: Rank)
        ensures
            r == entry_rank(self@, other@),
    {
        match self {
            OpenEntry::Scope { name: x } => match other {
                OpenEntry::Scope { name: y } => rank_text(x.as_str(), y.as_str()),
                OpenEntry::Variable { .. } => Rank::Before,
            },
            OpenEntry::Variable { scope_name: sa, name: na, depth: da } => match other {
                OpenEntry::Scope { .. } => Rank::After,
                OpenEntry::Variable { scope_name: sb, name: nb, depth: db } => {
                    let by_scope = rank_text(sa.as_str(), sb.as_str());
                    match by_scope {
                        Rank::Same => {
                            let by_name = rank_text(na.as_str(), nb.as_str());
                            match by_name {
                                Rank::Same => {
                                    if *da < *db {
                                        Rank::Before
                                    } else if *da == *db {
                                        Rank::Same
                                    } else {
                                        Rank::After
                                    }
                                },
                                _ => by_name,
                            }
                        },
                        _ => by_scope,
                    }
                },
            },
        }
    }
}

} // verus!
