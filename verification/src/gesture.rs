//! Dragging: from pointer events to turns of the camera.
use crate::scalar::Scalar;
use vstd::prelude::*;

verus! {

/// A place in the window, in pixels.
#[derive(Clone, Copy, Debug, PartialEq, Eq, Structural)]
pub struct Point {
    pub x: Scalar,
    pub y: Scalar,
}

/// A button of the pointer.
#[derive(Clone, Copy, Debug, PartialEq, Eq, Structural)]
pub enum Button {
    Left,
    Other,
}

/// What the pointer does.
#[derive(Clone, Copy, Debug, PartialEq, Eq, Structural)]
pub enum PointerEvent {
    /// The left button goes down in the viewport.
    Press(Point),
    /// The pointer moves, with this button held.
    Move(Point, Option<Button>),
    /// The left button goes up, anywhere.
    Release,
}

/// Where the drag stands after an event: the place that the next turn starts from, if any.
pub open spec fn dragged_from(from: Option<Point>, event: PointerEvent) -> Option<Point> {
    match event {
        PointerEvent::Press(at) => Some(at),
        PointerEvent::Release => None,
        PointerEvent::Move(at, button) => match button {
            Some(Button::Left) => if from is Some {
                Some(at)
            } else {
                None
            },
            Some(Button::Other) => from,
            None => None,
        },
    }
}

/// The stretch that an event turns the camera by, if any.
pub open spec fn turned(from: Option<Point>, event: PointerEvent) -> Option<(Point, Point)> {
    match (from, event) {
        (Some(start), PointerEvent::Move(at, Some(Button::Left))) => Some((start, at)),
        _ => None,
    }
}

/// A drag of the viewport.
#[derive(Clone, Copy, Debug, PartialEq, Eq, Structural)]
pub struct Drag {
    pub from: Option<Point>,
}

impl Drag {
    /// No drag is going on.
    pub fn new() -> (r: Drag)
        ensures
            r.from is None,
    {
        Drag { from: None }
    }

    /// Follows the pointer. Gives the two ends of the stretch to turn the camera by, if there is
    /// one. A drag goes on while the left button is held, over whatever the pointer passes, and
    /// ends when it is released, or when the pointer moves with no button held.
    pub fn follow(&mut self, event: PointerEvent) -> (r: Option<(Point, Point)>)
        ensures
            r == turned(old(self).from, event),
            final(self).from == dragged_from(old(self).from, event),
    {
        match event {
            PointerEvent::Press(at) => {
                self.from = Some(at);
                None
            },
            PointerEvent::Release => {
                self.from = None;
                None
            },
            PointerEvent::Move(at, button) => match button {
                Some(Button::Left) => match self.from {
                    Some(start) => {
                        self.from = Some(at);
                        Some((start, at))
                    },
                    None => None,
                },
                Some(Button::Other) => None,
                None => {
                    self.from = None;
                    None
                },
            },
        }
    }
}

/// Where the drag stands after all events.
pub open spec fn drag_after(from: Option<Point>, events: Seq<PointerEvent>) -> Option<Point>
    decreases events.len(),
{
    if events.len() == 0 {
        from
    } else {
        dragged_from(drag_after(from, events.drop_last()), events.last())
    }
}

/// A pointer that was not pressed in the viewport never turns the camera, wherever it moves.
pub proof fn law_no_turn_without_press(events: Seq<PointerEvent>)
    requires
        forall|i: int| 0 <= i < events.len() ==> !(#[trigger] events[i] is Press),
    ensures
        drag_after(None, events) is None,
        events.len() > 0 ==> turned(drag_after(None, events.drop_last()), events.last()) is None,
    decreases events.len(),
{
    if events.len() > 0 {
        let front = events.drop_last();
        assert forall|i: int| 0 <= i < front.len() implies !(#[trigger] front[i] is Press) by {
            assert(front[i] == events[i]);
        }
        law_no_turn_without_press(front);
        assert(events[events.len() - 1] == events.last());
    }
}

/// The stretches of one drag join up: each starts where the one before it ended, the first where
/// the button went down, so that together they turn the camera from the press to where the pointer
/// is.
pub proof fn law_stretches_join(start: Point, places: Seq<Point>, i: int)
    requires
        0 <= i < places.len(),
    ensures
        ({
            let events = Seq::new(
                places.len(),
                |k: int| PointerEvent::Move(places[k], Some(Button::Left)),
            );
            turned(drag_after(Some(start), events.take(i)), events[i]) == Some(
                (
                    if i == 0 {
                        start
                    } else {
                        places[i - 1]
                    },
                    places[i],
                ),
            )
        }),
    decreases i,
{
    let events = Seq::new(
        places.len(),
        |k: int| PointerEvent::Move(places[k], Some(Button::Left)),
    );
    if i > 0 {
        law_stretches_join(start, places, i - 1);
        assert(events.take(i).drop_last() =~= events.take(i - 1));
        assert(events.take(i).last() == events[i - 1]);
    }
}

/// After the button is released, or the pointer has moved with no button held, the drag is over,
/// and the camera has not turned; moving with another button held changes nothing.
pub proof fn law_release_ends_drag(from: Option<Point>, at: Point)
    ensures
        dragged_from(from, PointerEvent::Release) is None,
        turned(from, PointerEvent::Release) is None,
        dragged_from(from, PointerEvent::Move(at, None)) is None,
        turned(from, PointerEvent::Move(at, None)) is None,
        dragged_from(from, PointerEvent::Move(at, Some(Button::Other))) == from,
        turned(from, PointerEvent::Move(at, Some(Button::Other))) is None,
{
}

/// The camera turns exactly if the pointer moves with the left button held during a drag, and then
/// from where the drag stood to where the pointer is. A press starts a drag where it is, such a
/// move carries it on to where the pointer is, a move with another button leaves it, and anything
/// else ends it.
pub proof fn law_drag_follows_pointer(
    drag: &mut Drag,
    event: PointerEvent,
    r: Option<(Point, Point)>,
    a: Point,
    b: Point,
)
    requires
        call_ensures(Drag::follow, (drag, event), r),
    ensures
        r == Some((a, b)) <==> old(drag).from == Some(a) && event == PointerEvent::Move(
            b,
            Some(Button::Left),
        ),
        event == PointerEvent::Press(b) ==> final(drag).from == Some(b),
        event == PointerEvent::Release ==> final(drag).from is None,
        event == PointerEvent::Move(b, None) ==> final(drag).from is None,
        event == PointerEvent::Move(b, Some(Button::Other)) ==> final(drag).from
            == old(drag).from,
        event == PointerEvent::Move(b, Some(Button::Left)) && old(drag).from is Some
            ==> final(drag).from == Some(b),
        event == PointerEvent::Move(b, Some(Button::Left)) && old(drag).from is None
            ==> final(drag).from is None,
{
}

/// A press starts a drag from where it is, whatever went before, and does not turn the camera.
pub proof fn law_press_starts_drag(from: Option<Point>, at: Point, to: Point)
    ensures
        dragged_from(from, PointerEvent::Press(at)) == Some(at),
        turned(from, PointerEvent::Press(at)) is None,
        turned(
            dragged_from(from, PointerEvent::Press(at)),
            PointerEvent::Move(to, Some(Button::Left)),
        ) == Some((at, to)),
{
}

/// At first no drag is going on.
pub proof fn law_no_drag_at_first(drag: Drag)
    requires
        call_ensures(Drag::new, (), drag),
    ensures
        drag.from is None,
{
}

} // verus!
