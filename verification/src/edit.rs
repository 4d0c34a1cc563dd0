//! The edit staging model: the at-most-one in-progress creation/edit draft,
//! its field routing, and its submission validation.
//!
//! A field-change event routes to the matching field of the current draft
//! variant and is ignored (without failing) when the variant has no such
//! field.  Submission validates synchronously: a rejected draft is kept with
//! its error populated, an accepted draft is cleared and turned into the
//! mutation the dispatcher must launch.

use vstd::prelude::*;

use crate::numerals::{is_u32_numeral, u32_numeral_value, parse_u32};

verus! {

/// What is being edited or created.
#[derive(Debug)]
pub enum EditTarget {
    EditShelf { shelf_id: String },
    EditItem { shelf_id: String, item_id: String },
    EditSlot { shelf_id: String, slot_id: String },
    NewItem {
        shelf_id: String,
        item_name: String,
        item_count: String,
        error_message: Option<String>,
    },
    NewShelf { shelf_name: String, slots: String, error_message: Option<String> },
}

/// Mathematical value of an [`EditTarget`].
#[verifier::ext_equal]
pub enum EditView {
    EditShelf { shelf_id: Seq<char> },
    EditItem { shelf_id: Seq<char>, item_id: Seq<char> },
    EditSlot { shelf_id: Seq<char>, slot_id: Seq<char> },
    NewItem {
        shelf_id: Seq<char>,
        item_name: Seq<char>,
        item_count: Seq<char>,
        error_message: Option<Seq<char>>,
    },
    NewShelf { shelf_name: Seq<char>, slots: Seq<char>, error_message: Option<Seq<char>> },
}

impl View for EditTarget {
    type V = EditView;

    open spec fn view(&self) -> EditView {
        match self {
            EditTarget::EditShelf { shelf_id } => EditView::EditShelf { shelf_id: shelf_id@ },
            EditTarget::EditItem { shelf_id, item_id } => EditView::EditItem {
                shelf_id: shelf_id@,
                item_id: item_id@,
            },
            EditTarget::EditSlot { shelf_id, slot_id } => EditView::EditSlot {
                shelf_id: shelf_id@,
                slot_id: slot_id@,
            },
            EditTarget::NewItem { shelf_id, item_name, item_count, error_message } => {
                EditView::NewItem {
                    shelf_id: shelf_id@,
                    item_name: item_name@,
                    item_count: item_count@,
                    error_message: error_message.deep_view(),
                }
            },
            EditTarget::NewShelf { shelf_name, slots, error_message } => EditView::NewShelf {
                shelf_name: shelf_name@,
                slots: slots@,
                error_message: error_message.deep_view(),
            },
        }
    }
}

impl DeepView for EditTarget {
    type V = EditView;

    open spec fn deep_view(&self) -> EditView {
        self.view()
    }
}

/// The mutation an accepted submission asks for, or why none was issued.
#[derive(Debug)]
pub enum SubmitOutcome {
    /// Create a shelf with this id and slot count.
    CreateShelf { shelf_id: String, slot_count: u32 },
    /// Create an item on this shelf.
    CreateItem { shelf_id: String, item_name: String, count: u32 },
    /// Validation failed; the draft was kept, its error set.
    Rejected,
    /// The draft variant has no submission wired; the draft was kept.
    NotSubmittable,
}

/// Mathematical value of a [`SubmitOutcome`].
#[verifier::ext_equal]
pub enum SubmitView {
    CreateShelf { shelf_id: Seq<char>, slot_count: u32 },
    CreateItem { shelf_id: Seq<char>, item_name: Seq<char>, count: u32 },
    Rejected,
    NotSubmittable,
}

impl View for SubmitOutcome {
    type V = SubmitView;

    open spec fn view(&self) -> SubmitView {
        match self {
            SubmitOutcome::CreateShelf { shelf_id, slot_count } => SubmitView::CreateShelf {
                shelf_id: shelf_id@,
                slot_count: *slot_count,
            },
            SubmitOutcome::CreateItem { shelf_id, item_name, count } => SubmitView::CreateItem {
                shelf_id: shelf_id@,
                item_name: item_name@,
                count: *count,
            },
            SubmitOutcome::Rejected => SubmitView::Rejected,
            SubmitOutcome::NotSubmittable => SubmitView::NotSubmittable,
        }
    }
}

/// The draft after a count-draft keystroke: the slot count of a new-shelf
/// draft and the stock count of a new-item draft share the input control, so
/// the event routes on the variant; other variants ignore it.
pub open spec fn spec_set_count(e: EditView, c: Seq<char>) -> EditView {
    match e {
        EditView::NewShelf { shelf_name, slots, error_message } => EditView::NewShelf {
            shelf_name,
            slots: c,
            error_message,
        },
        EditView::NewItem { shelf_id, item_name, item_count, error_message } => {
            EditView::NewItem { shelf_id, item_name, item_count: c, error_message }
        },
        _ => e,
    }
}

/// The draft after a name keystroke: the shelf name of a new-shelf draft or
/// the item name of a new-item draft; other variants ignore it.
pub open spec fn spec_set_name(e: EditView, s: Seq<char>) -> EditView {
    match e {
        EditView::NewShelf { shelf_name, slots, error_message } => EditView::NewShelf {
            shelf_name: s,
            slots,
            error_message,
        },
        EditView::NewItem { shelf_id, item_name, item_count, error_message } => {
            EditView::NewItem { shelf_id, item_name: s, item_count, error_message }
        },
        _ => e,
    }
}

/// The draft after a shelf pick: only a new-item draft has a shelf to pick;
/// other variants ignore it.
pub open spec fn spec_pick_shelf(e: EditView, sid: Seq<char>) -> EditView {
    match e {
        EditView::NewItem { shelf_id, item_name, item_count, error_message } => {
            EditView::NewItem { shelf_id: sid, item_name, item_count, error_message }
        },
        _ => e,
    }
}

/// What submitting a draft does: the draft afterwards, and the outcome.
///
/// A new-shelf draft must carry a parseable slot count (else: "slots must be
/// a natural number") of at least one (else: "shelf must have at least 1
/// slot").  A new-item draft must carry a parseable stock count (same first
/// error) and a chosen shelf (else: "you must select a shelf").  Validation
/// failure keeps the draft, error set; acceptance clears the draft and
/// yields the mutation; the other variants keep the draft and yield none.
pub open spec fn spec_submit(e: EditView) -> (Option<EditView>, SubmitView) {
    match e {
        EditView::NewShelf { shelf_name, slots, error_message } => {
            if !is_u32_numeral(slots) {
                (
                    Some(
                        EditView::NewShelf {
                            shelf_name,
                            slots,
                            error_message: Some("slots must be a natural number"@),
                        },
                    ),
                    SubmitView::Rejected,
                )
            } else if u32_numeral_value(slots) == 0 {
                (
                    Some(
                        EditView::NewShelf {
                            shelf_name,
                            slots,
                            error_message: Some("shelf must have at least 1 slot"@),
                        },
                    ),
                    SubmitView::Rejected,
                )
            } else {
                (
                    None,
                    SubmitView::CreateShelf {
                        shelf_id: shelf_name,
                        slot_count: u32_numeral_value(slots) as u32,
                    },
                )
            }
        },
        EditView::NewItem { shelf_id, item_name, item_count, error_message } => {
            if !is_u32_numeral(item_count) {
                (
                    Some(
                        EditView::NewItem {
                            shelf_id,
                            item_name,
                            item_count,
                            error_message: Some("slots must be a natural number"@),
                        },
                    ),
                    SubmitView::Rejected,
                )
            } else if shelf_id.len() == 0 {
                (
                    Some(
                        EditView::NewItem {
                            shelf_id,
                            item_name,
                            item_count,
                            error_message: Some("you must select a shelf"@),
                        },
                    ),
                    SubmitView::Rejected,
                )
            } else {
                (
                    None,
                    SubmitView::CreateItem {
                        shelf_id,
                        item_name,
                        count: u32_numeral_value(item_count) as u32,
                    },
                )
            }
        },
        _ => (Some(e), SubmitView::NotSubmittable),
    }
}

/// A copy of an optional error message, by value.
fn clone_opt_string(o: &Option<String>) -> (r: Option<String>)
    ensures
        r.deep_view() == o.deep_view(),
{
    match o {
        None => None,
        Some(s) => Some(s.clone()),
    }
}

impl EditTarget {
    /// The draft after a count-draft keystroke; see [`spec_set_count`].
    pub fn with_count_draft(&self, c: String) -> (r: EditTarget)
        ensures
            r@ == spec_set_count(self@, c@),
    {
        match self {
            EditTarget::NewShelf { shelf_name, slots: _, error_message } => {
                EditTarget::NewShelf {
                    shelf_name: shelf_name.clone(),
                    slots: c,
                    error_message: clone_opt_string(error_message),
                }
            },
            EditTarget::NewItem { shelf_id, item_name, item_count: _, error_message } => {
                EditTarget::NewItem {
                    shelf_id: shelf_id.clone(),
                    item_name: item_name.clone(),
                    item_count: c,
                    error_message: clone_opt_string(error_message),
                }
            },
            _ => self.duplicate(),
        }
    }

    /// The draft after a name keystroke; see [`spec_set_name`].
    pub fn with_name_draft(&self, s: String) -> (r: EditTarget)
        ensures
            r@ == spec_set_name(self@, s@),
    {
        match self {
            EditTarget::NewShelf { shelf_name: _, slots, error_message } => {
                EditTarget::NewShelf {
                    shelf_name: s,
                    slots: slots.clone(),
                    error_message: clone_opt_string(error_message),
                }
            },
            EditTarget::NewItem { shelf_id, item_name: _, item_count, error_message } => {
                EditTarget::NewItem {
                    shelf_id: shelf_id.clone(),
                    item_name: s,
                    item_count: item_count.clone(),
                    error_message: clone_opt_string(error_message),
                }
            },
            _ => self.duplicate(),
        }
    }

    /// The draft after a shelf pick; see [`spec_pick_shelf`].
    pub fn with_picked_shelf(&self, sid: String) -> (r: EditTarget)
        ensures
            r@ == spec_pick_shelf(self@, sid@),
    {
        match self {
            EditTarget::NewItem { shelf_id: _, item_name, item_count, error_message } => {
                EditTarget::NewItem {
                    shelf_id: sid,
                    item_name: item_name.clone(),
                    item_count: item_count.clone(),
                    error_message: clone_opt_string(error_message),
                }
            },
            _ => self.duplicate(),
        }
    }

    /// Validate and submit the draft; see [`spec_submit`].
    pub fn submit(&self) -> (r: (Option<EditTarget>, SubmitOutcome))
        ensures
            r.0.deep_view() == spec_submit(self@).0,
            r.1@ == spec_submit(self@).1,
    {
        match self {
            EditTarget::NewShelf { shelf_name, slots, error_message: _ } => {
                match parse_u32(slots.as_str()) {
                    None => (
                        Some(
                            EditTarget::NewShelf {
                                shelf_name: shelf_name.clone(),
                                slots: slots.clone(),
                                error_message: Some(
                                    String::from_str("slots must be a natural number"),
                                ),
                            },
                        ),
                        SubmitOutcome::Rejected,
                    ),
                    Some(count) => {
                        if count == 0 {
                            (
                                Some(
                                    EditTarget::NewShelf {
                                        shelf_name: shelf_name.clone(),
                                        slots: slots.clone(),
                                        error_message: Some(
                                            String::from_str("shelf must have at least 1 slot"),
                                        ),
                                    },
                                ),
                                SubmitOutcome::Rejected,
                            )
                        } else {
                            (
                                None,
                                SubmitOutcome::CreateShelf {
                                    shelf_id: shelf_name.clone(),
                                    slot_count: count,
                                },
                            )
                        }
                    },
                }
            },
            EditTarget::NewItem { shelf_id, item_name, item_count, error_message: _ } => {
                match parse_u32(item_count.as_str()) {
                    None => (
                        Some(
                            EditTarget::NewItem {
                                shelf_id: shelf_id.clone(),
                                item_name: item_name.clone(),
                                item_count: item_count.clone(),
                                error_message: Some(
                                    String::from_str("slots must be a natural number"),
                                ),
                            },
                        ),
                        SubmitOutcome::Rejected,
                    ),
                    Some(count) => {
                        if shelf_id.as_str().unicode_len() == 0 {
                            (
                                Some(
                                    EditTarget::NewItem {
                                        shelf_id: shelf_id.clone(),
                                        item_name: item_name.clone(),
                                        item_count: item_count.clone(),
                                        error_message: Some(
                                            String::from_str("you must select a shelf"),
                                        ),
                                    },
                                ),
                                SubmitOutcome::Rejected,
                            )
                        } else {
                            (
                                None,
                                SubmitOutcome::CreateItem {
                                    shelf_id: shelf_id.clone(),
                                    item_name: item_name.clone(),
                                    count,
                                },
                            )
                        }
                    },
                }
            },
            _ => (Some(self.duplicate()), SubmitOutcome::NotSubmittable),
        }
    }

    /// A copy of the draft, by value.
    pub fn duplicate(&self) -> (r: EditTarget)
        ensures
            r@ == self@,
    {
        match self {
            EditTarget::EditShelf { shelf_id } => EditTarget::EditShelf {
                shelf_id: shelf_id.clone(),
            },
            EditTarget::EditItem { shelf_id, item_id } => EditTarget::EditItem {
                shelf_id: shelf_id.clone(),
                item_id: item_id.clone(),
            },
            EditTarget::EditSlot { shelf_id, slot_id } => EditTarget::EditSlot {
                shelf_id: shelf_id.clone(),
                slot_id: slot_id.clone(),
            },
            EditTarget::NewItem { shelf_id, item_name, item_count, error_message } => {
                EditTarget::NewItem {
                    shelf_id: shelf_id.clone(),
                    item_name: item_name.clone(),
                    item_count: item_count.clone(),
                    error_message: clone_opt_string(error_message),
                }
            },
            EditTarget::NewShelf { shelf_name, slots, error_message } => EditTarget::NewShelf {
                shelf_name: shelf_name.clone(),
                slots: slots.clone(),
                error_message: clone_opt_string(error_message),
            },
        }
    }
}

} // verus!
