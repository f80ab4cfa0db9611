use vstd::prelude::*;

verus! {

/// The new value of a stepper after a frame: a click on "-" lowers it by one
/// unless it is at its minimum, a click on "+" raises it by one unless it is
/// at its maximum.
pub open spec fn stepped_value(
    value: usize,
    min: usize,
    max: usize,
    pressed: bool,
    hovering_minus: bool,
    hovering_plus: bool,
) -> usize {
    if pressed && hovering_minus && value > min {
        (value - 1) as usize
    } else if pressed && hovering_plus && value < max {
        (value + 1) as usize
    } else {
        value
    }
}

pub fn stepper_value(
    value: usize,
    min: usize,
    max: usize,
    pressed: bool,
    hovering_minus: bool,
    hovering_plus: bool,
) -> (new_value: usize)
    ensures
        new_value == stepped_value(value, min, max, pressed, hovering_minus, hovering_plus),
{
    let mut new_value: usize = value;
    if pressed {
        if hovering_minus && value > min {
            new_value = value - 1;
        } else if hovering_plus && value < max {
            new_value = value + 1;
        }
    }
    new_value
}

/// A stepper never leaves its range, and moves by at most one per frame.
pub proof fn lemma_stepper_stays_in_range(
    value: usize,
    min: usize,
    max: usize,
    pressed: bool,
    hovering_minus: bool,
    hovering_plus: bool,
)
    requires
        min <= value <= max,
    ensures
        min <= stepped_value(value, min, max, pressed, hovering_minus, hovering_plus) <= max,
        value - 1 <= stepped_value(value, min, max, pressed, hovering_minus, hovering_plus) <= value
            + 1,
        !pressed ==> stepped_value(value, min, max, pressed, hovering_minus, hovering_plus)
            == value,
{
}

/// Whether a slider is being dragged after a frame: a press on it starts a
/// drag, a release of the button ends it.
pub fn slider_dragging(dragging: bool, pressed: bool, hovering: bool, released: bool) -> (now:
    bool)
    ensures
        now == (!released && (dragging || (pressed && hovering))),
{
    let mut now: bool = dragging;
    if pressed && hovering {
        now = true;
    }
    if released {
        now = false;
    }
    now
}

/// What the pointer does to one entry of a dropdown list.
#[derive(Debug, Clone, Copy, PartialEq, Eq)]
pub struct DropdownItemState {
    pub hovered: bool,
    pub enabled: bool,
}

/// The selected entry of a dropdown and whether its list is open.
#[derive(Debug, Clone, Copy, PartialEq, Eq)]
pub struct DropdownResult {
    pub selected_index: usize,
    pub open: bool,
}

/// The last enabled entry under the pointer, if any.
pub open spec fn picked_item(items: Seq<DropdownItemState>) -> Option<int>
    decreases items.len(),
{
    if items.len() == 0 {
        None
    } else if items.last().hovered && items.last().enabled {
        Some(items.len() - 1)
    } else {
        picked_item(items.drop_last())
    }
}

/// The dropdown after a frame: a click on its button opens or closes the
/// list; a click while the list is open selects the enabled entry under the
/// pointer and closes the list, and a click outside the button and the list
/// closes it.
pub open spec fn dropdown_after(
    selected_index: usize,
    open: bool,
    pressed: bool,
    hovering_button: bool,
    items: Seq<DropdownItemState>,
    pointer_in_area: bool,
) -> DropdownResult {
    if !pressed {
        DropdownResult { selected_index, open }
    } else if hovering_button {
        DropdownResult { selected_index, open: !open }
    } else if open {
        match picked_item(items) {
            Some(index) => DropdownResult { selected_index: index as usize, open: false },
            None => DropdownResult { selected_index, open: pointer_in_area },
        }
    } else {
        DropdownResult { selected_index, open }
    }
}

proof fn lemma_picked_item_in_range(items: Seq<DropdownItemState>)
    ensures
        picked_item(items) matches Some(index) ==> {
            &&& 0 <= index < items.len()
            &&& items[index].hovered
            &&& items[index].enabled
        },
    decreases items.len(),
{
    if items.len() > 0 {
        lemma_picked_item_in_range(items.drop_last());
    }
}

pub fn dropdown_state(
    selected_index: usize,
    open: bool,
    pressed: bool,
    hovering_button: bool,
    items: &Vec<DropdownItemState>,
    pointer_in_area: bool,
) -> (result: DropdownResult)
    ensures
        result == dropdown_after(
            selected_index,
            open,
            pressed,
            hovering_button,
            items@,
            pointer_in_area,
        ),
{
    let mut new_open: bool = open;
    let mut new_selected: usize = selected_index;

    if pressed {
        if hovering_button {
            new_open = !open;
        } else if open {
            let mut picked: Option<usize> = None;
            let mut index: usize = 0;
            while index < items.len()
                invariant
                    index <= items.len(),
                    match picked {
                        Some(p) => picked_item(items@.take(index as int)) == Some(p as int),
                        None => picked_item(items@.take(index as int)) is None,
                    },
                decreases items.len() - index,
            {
                assert(items@.take(index + 1).drop_last() =~= items@.take(index as int));
                if items[index].hovered && items[index].enabled {
                    picked = Some(index);
                }
                index = index + 1;
            }
            assert(items@.take(items.len() as int) =~= items@);
            match picked {
                Some(p) => {
                    new_selected = p;
                    new_open = false;
                },
                None => {
                    if !pointer_in_area {
                        new_open = false;
                    }
                },
            }
        }
    }
    DropdownResult { selected_index: new_selected, open: new_open }
}

/// A dropdown only ever selects an enabled entry under the pointer, and a
/// selection closes the list; without a click nothing changes.
pub proof fn lemma_dropdown_selects_enabled_entries(
    selected_index: usize,
    open: bool,
    pressed: bool,
    hovering_button: bool,
    items: Seq<DropdownItemState>,
    pointer_in_area: bool,
)
    requires
        items.len() <= usize::MAX,
    ensures
        ({
            let after = dropdown_after(
                selected_index,
                open,
                pressed,
                hovering_button,
                items,
                pointer_in_area,
            );
            &&& !pressed ==> after == (DropdownResult { selected_index, open })
            &&& after.selected_index != selected_index ==> {
                &&& after.selected_index < items.len()
                &&& items[after.selected_index as int].enabled
                &&& items[after.selected_index as int].hovered
                &&& !after.open
            }
        }),
{
    lemma_picked_item_in_range(items);
}

/// What a click on the stepper does: "-" alone lowers a value above the
/// minimum by one, "+" alone raises a value below the maximum by one, a
/// value at the bound of the clicked button stays, and without a click on
/// either button nothing changes.
pub proof fn lemma_stepper_clicks(
    value: usize,
    min: usize,
    max: usize,
    pressed: bool,
    hovering_minus: bool,
    hovering_plus: bool,
)
    ensures
        ({
            let after = stepped_value(value, min, max, pressed, hovering_minus, hovering_plus);
            &&& (pressed && hovering_minus && value > min) ==> after == value - 1
            &&& (pressed && hovering_plus && !hovering_minus && value < max) ==> after == value
                + 1
            &&& (pressed && hovering_plus && value <= min && value < max) ==> after == value + 1
            &&& (pressed && hovering_minus && !hovering_plus && value <= min) ==> after == value
            &&& (pressed && hovering_plus && !hovering_minus && value >= max) ==> after == value
            &&& (!pressed || (!hovering_minus && !hovering_plus)) ==> after == value
            &&& (after == value || after == value - 1 || after == value + 1)
        }),
{
}

proof fn lemma_picked_item_is_last_clickable(items: Seq<DropdownItemState>, index: int)
    requires
        0 <= index < items.len(),
        items[index].hovered && items[index].enabled,
        forall|j: int| index < j < items.len() ==> !(items[j].hovered && items[j].enabled),
    ensures
        picked_item(items) == Some(index),
    decreases items.len(),
{
    if index + 1 < items.len() {
        lemma_picked_item_is_last_clickable(items.drop_last(), index);
    }
}

proof fn lemma_nothing_picked(items: Seq<DropdownItemState>)
    requires
        forall|j: int| 0 <= j < items.len() ==> !(items[j].hovered && items[j].enabled),
    ensures
        picked_item(items) is None,
    decreases items.len(),
{
    if items.len() > 0 {
        lemma_nothing_picked(items.drop_last());
    }
}

/// A click on an enabled entry under the pointer, with the list open and the
/// pointer off the button, selects that entry and closes the list, whether
/// or not it was selected already (should entries overlap, the last one under
/// the pointer wins).
pub proof fn lemma_click_on_entry_selects_it(
    selected_index: usize,
    items: Seq<DropdownItemState>,
    index: int,
    pointer_in_area: bool,
)
    requires
        items.len() <= usize::MAX,
        0 <= index < items.len(),
        items[index].hovered && items[index].enabled,
        forall|j: int| index < j < items.len() ==> !(items[j].hovered && items[j].enabled),
    ensures
        dropdown_after(selected_index, true, true, false, items, pointer_in_area)
            == (DropdownResult { selected_index: index as usize, open: false }),
{
    lemma_picked_item_is_last_clickable(items, index);
}

/// A click with the list open that hits no enabled entry keeps the selection,
/// and closes the list exactly when it lands outside the button and the list.
pub proof fn lemma_click_beside_entries(
    selected_index: usize,
    items: Seq<DropdownItemState>,
    pointer_in_area: bool,
)
    requires
        forall|j: int| 0 <= j < items.len() ==> !(items[j].hovered && items[j].enabled),
    ensures
        dropdown_after(selected_index, true, true, false, items, pointer_in_area)
            == (DropdownResult { selected_index, open: pointer_in_area }),
{
    lemma_nothing_picked(items);
}

} // verus!
