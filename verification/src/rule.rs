//! The rule that picks a category's image elements on its page.

use crate::text::{decimal, push_decimal};
use crate::target::Target;
use vstd::prelude::*;

verus! {

/// How the image elements of a category are found on its page.
#[derive(Clone, Copy, Debug, PartialEq, Eq, Structural)]
pub enum SelectionRule {
    /// Lazily loaded images with a deferred source inside one of the
    /// sortable tables numbered `first` to `last`, both included.
    SortableTables { first: u32, last: u32 },
    /// The category has no rule yet.
    NotYetSupported,
}

/// The rule of each category.
pub open spec fn rule_of(target: Target) -> SelectionRule {
    match target {
        Target::Operator => SelectionRule::SortableTables { first: 1, last: 12 },
        Target::Valuable => SelectionRule::NotYetSupported,
        Target::Material => SelectionRule::NotYetSupported,
        Target::ExpArts => SelectionRule::NotYetSupported,
        Target::Soc => SelectionRule::NotYetSupported,
    }
}

/// The selector of the images of one sortable table.
pub open spec fn table_selector(id: nat) -> Seq<char> {
    "#sortabletable"@ + decimal(id) + " img.lazyload[data-src]"@
}

/// The selectors of `count` tables from `first` on, joined by `", "`.
pub open spec fn tables_selector(first: nat, count: nat) -> Seq<char>
    decreases count,
{
    if count == 0 {
        Seq::empty()
    } else if count == 1 {
        table_selector(first)
    } else {
        tables_selector(first, (count - 1) as nat) + ", "@ + table_selector(
            (first + count - 1) as nat,
        )
    }
}

/// The selector of the tables numbered `first` to `last`, both included.
/// An empty range of tables gives the empty text.
pub open spec fn range_selector(first: u32, last: u32) -> Seq<char> {
    if first <= last {
        tables_selector(first as nat, (last - first + 1) as nat)
    } else {
        Seq::empty()
    }
}

/// The selector text of a rule, where it has one.
pub open spec fn selector_of(rule: SelectionRule) -> Option<Seq<char>> {
    match rule {
        SelectionRule::SortableTables { first, last } => Some(range_selector(first, last)),
        SelectionRule::NotYetSupported => None,
    }
}

/// The selector of the tables numbered `first` to `last`: one selector
/// for all of them, so that an element is matched once however many of
/// them contain it.
pub fn range_selector_text(first: u32, last: u32) -> (text: String)
    ensures
        text@ == range_selector(first, last),
{
    let mut text = String::new();
    if first <= last {
        let mut id: u32 = first;
        loop
            invariant_except_break
                first <= id <= last,
                text@ + table_selector(id as nat) == tables_selector(
                    first as nat,
                    (id - first + 1) as nat,
                ),
            ensures
                text@ == tables_selector(first as nat, (last - first + 1) as nat),
            decreases last - id,
        {
            text.append("#sortabletable");
            push_decimal(&mut text, id);
            text.append(" img.lazyload[data-src]");
            if id == last {
                break ;
            }
            text.append(", ");
            id = id + 1;
            proof {
                let done = tables_selector(first as nat, (id - first) as nat);
                assert(text@ == done + ", "@);
                assert(done + ", "@ + table_selector(id as nat) == tables_selector(
                    first as nat,
                    (id - first + 1) as nat,
                ));
            }
        }
    }
    text
}

impl Target {
    /// The selection rule of this category.
    pub fn selection_rule(self) -> (rule: SelectionRule)
        ensures
            rule == rule_of(self),
    {
        match self {
            Target::Operator => SelectionRule::SortableTables { first: 1, last: 12 },
            Target::Valuable => SelectionRule::NotYetSupported,
            Target::Material => SelectionRule::NotYetSupported,
            Target::ExpArts => SelectionRule::NotYetSupported,
            Target::Soc => SelectionRule::NotYetSupported,
        }
    }
}

impl SelectionRule {
    /// The selector text of this rule, where it has one.
    pub fn selector(&self) -> (text: Option<String>)
        ensures
            match text {
                Some(t) => selector_of(*self) == Some(t@),
                None => selector_of(*self).is_none(),
            },
    {
        match *self {
            SelectionRule::SortableTables { first, last } => Some(range_selector_text(first, last)),
            SelectionRule::NotYetSupported => None,
        }
    }
}

} // verus!
