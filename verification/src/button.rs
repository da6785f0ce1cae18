//! Basic button widget: its animated geometry and its reaction to input.

use vstd::prelude::*;
use crate::animation::{Animated, Motion};
use crate::event::{ElementState, Event, MouseButton};
use crate::geometry::{clamped, hit_test, inside, saturating_sum, Point, Vector, UNIT};

verus! {

/// Microseconds that a move or a resize takes.
pub const GEOMETRY_DURATION: i64 = 200_000;

/// Microseconds that a change of the overlay takes: shorter than a move,
/// so that the highlight feels immediate.
pub const OVERLAY_DURATION: i64 = 100_000;

/// What hovering adds to the overlay intensity, and pressing once more:
/// a tenth of full intensity.
pub const OVERLAY_STEP: i32 = 100;

/// Size of the label's font.
pub const LABEL_FONT_SIZE: i32 = 14_000;

/// A colour by its four channels, each from 0 to [`UNIT`].
#[derive(Debug, Clone, Copy, PartialEq, Eq, Structural)]
pub struct Colour {
    pub red: i32,
    pub green: i32,
    pub blue: i32,
    pub alpha: i32,
}

/// A colour by its four channels, each from 0 to 255.
#[derive(Debug, Clone, Copy, PartialEq, Eq, Structural)]
pub struct DecimalColour {
    pub r: u8,
    pub g: u8,
    pub b: u8,
    pub a: u8,
}

/// A change of a button's interaction state.
#[derive(Debug, Clone, Copy, PartialEq, Eq, Structural)]
pub enum Transition {
    /// The cursor came onto the button.
    Entered,
    /// The cursor left the button.
    Exited,
    /// The primary button went down over the button.
    PressBegan,
    /// The primary button came up after a press.
    PressEnded,
}

/// The callbacks that the owner of a button may register.
#[derive(Debug, Clone, Copy, PartialEq, Eq, Structural)]
pub enum Callback {
    OnPress,
    OnRelease,
    OnEnter,
    OnExit,
}

impl Transition {
    /// The callback that is due after this transition.
    ///
    /// Mind the pairing of the two press callbacks: `OnRelease` is due
    /// when a press begins, and `OnPress` when it ends.
    pub open spec fn due(self) -> Callback {
        match self {
            Transition::Entered => Callback::OnEnter,
            Transition::Exited => Callback::OnExit,
            Transition::PressBegan => Callback::OnRelease,
            Transition::PressEnded => Callback::OnPress,
        }
    }

    /// The callback to call, if it is registered, once this transition
    /// has been made.
    pub fn callback(&self) -> (callback: Callback)
        ensures
            callback == self.due(),
    {
        match self {
            Transition::Entered => Callback::OnEnter,
            Transition::Exited => Callback::OnExit,
            Transition::PressBegan => Callback::OnRelease,
            Transition::PressEnded => Callback::OnPress,
        }
    }
}

/// How a button's label is drawn.
pub struct TextStyle {
    pub bold: bool,
    pub colour: DecimalColour,
    pub font_family: &'static str,
    /// Size of the font, in thousandths of a point.
    pub font_size: i32,
    pub italic: bool,
    /// Top-left corner of the area that the text may fill.
    pub position: Point,
    /// Extent of the area that the text may fill.
    pub size: Vector,
    /// Depth at which the text is drawn.
    pub z: i32,
}

/// Collection of parameters for button creation.
pub struct ButtonDescriptor {
    /// Absolute position of the button.
    pub position: Point,
    /// Size of the button.
    pub size: Vector,
    /// Lower values are drawn in front of higher ones.
    pub z_index: i32,
    /// Background colour.
    pub back_colour: Colour,
    /// ID of the texture to use as background.
    pub texture_id: Option<u64>,
    /// Label of the button.
    pub label: Option<String>,
}

/// The text of an optional label.
pub open spec fn label_chars(label: Option<String>) -> Option<Seq<char>> {
    match label {
        Some(text) => Some(text@),
        None => None,
    }
}

impl ButtonDescriptor {
    /// The text that the label shows: the label, or nothing.
    pub open spec fn shown_text(self) -> Seq<char> {
        match self.label {
            Some(text) => text@,
            None => Seq::empty(),
        }
    }

    /// The text to draw on the button.
    pub fn label_text(&self) -> (text: String)
        ensures
            text@ == self.shown_text(),
    {
        match &self.label {
            Some(text) => text.clone(),
            None => String::new(),
        }
    }

    /// How the label is drawn: over the button's whole rectangle, one
    /// unit in front of it.
    pub fn label_style(&self) -> (style: TextStyle)
        ensures
            !style.bold,
            !style.italic,
            style.colour == (DecimalColour { r: 200, g: 0, b: 200, a: 255 }),
            style.font_family@ == "Arial"@,
            style.font_size == LABEL_FONT_SIZE,
            style.position == self.position,
            style.size == self.size,
            style.z == clamped(self.z_index - UNIT),
    {
        TextStyle {
            bold: false,
            colour: DecimalColour { r: 200, g: 0, b: 200, a: 255 },
            font_family: "Arial",
            font_size: LABEL_FONT_SIZE,
            italic: false,
            position: self.position,
            size: self.size,
            z: saturating_sum(self.z_index, -UNIT),
        }
    }
}

/// What has to be shown again after time has passed.
#[derive(Debug, Clone, Copy, PartialEq, Eq, Structural)]
pub struct Refresh {
    /// The position moved.
    pub position: bool,
    /// The size changed.
    pub size: bool,
    /// The overlay intensity changed.
    pub overlay_alpha: bool,
}

/// The mathematical state of a button.
pub struct ButtonState {
    pub position: Motion<Point>,
    pub size: Motion<Vector>,
    pub z_index: i32,
    pub hovered: bool,
    pub pressed: bool,
    pub back_colour: Colour,
    pub overlay_alpha: Motion<i32>,
    pub label: Option<Seq<char>>,
}

impl ButtonState {
    /// The overlay intensity that belongs to an interaction state.
    pub open spec fn level(hovered: bool, pressed: bool) -> int {
        OVERLAY_STEP * ((if hovered { 1int } else { 0int }) + (if pressed { 1int } else { 0int }))
    }

    /// The states that a button can be in: each animated quantity is
    /// well-formed, and the overlay's target is the level that belongs
    /// to the flags. The steps by which the target moves are not
    /// clamped, and need not be: they can never leave that level.
    pub open spec fn wf(self) -> bool {
        &&& self.position.wf()
        &&& self.size.wf()
        &&& self.overlay_alpha.wf()
        &&& self.overlay_alpha.target == Self::level(self.hovered, self.pressed)
    }

    /// The state of a button that was just made from `descriptor`.
    pub open spec fn initial(descriptor: ButtonDescriptor) -> ButtonState {
        ButtonState {
            position: Motion::resting(descriptor.position, GEOMETRY_DURATION as int),
            size: Motion::resting(descriptor.size, GEOMETRY_DURATION as int),
            z_index: descriptor.z_index,
            hovered: false,
            pressed: false,
            back_colour: descriptor.back_colour,
            overlay_alpha: Motion::resting(0i32, OVERLAY_DURATION as int),
            label: label_chars(descriptor.label),
        }
    }

    /// Whether `cursor` is on the button as it is shown now.
    pub open spec fn hit(self, cursor: Point) -> bool {
        inside(self.position.current, self.size.current, cursor)
    }

    /// The transition that `event` causes, if any.
    pub open spec fn transition(self, event: Event) -> Option<Transition> {
        match event {
            Event::CursorMoved { position } => {
                if self.hit(position) && !self.hovered {
                    Some(Transition::Entered)
                } else if !self.hit(position) && self.hovered {
                    Some(Transition::Exited)
                } else {
                    None
                }
            },
            Event::MouseInput { state, button } => {
                if button != MouseButton::Left {
                    None
                } else if self.pressed && state == ElementState::Released {
                    Some(Transition::PressEnded)
                } else if !self.pressed && self.hovered && state == ElementState::Pressed {
                    Some(Transition::PressBegan)
                } else {
                    None
                }
            },
            _ => None,
        }
    }

    /// The state with the overlay's target moved by `delta` from where
    /// it is.
    pub open spec fn bumped(self, delta: int) -> ButtonState {
        ButtonState {
            overlay_alpha: self.overlay_alpha.retarget((self.overlay_alpha.target + delta) as i32),
            ..self
        }
    }

    /// The state after `transition` was made.
    pub open spec fn made(self, transition: Transition) -> ButtonState {
        match transition {
            Transition::Entered => ButtonState { hovered: true, ..self.bumped(OVERLAY_STEP as int) },
            Transition::Exited => ButtonState { hovered: false, ..self.bumped(-OVERLAY_STEP) },
            Transition::PressBegan => ButtonState { pressed: true, ..self.bumped(OVERLAY_STEP as int) },
            Transition::PressEnded => ButtonState { pressed: false, ..self.bumped(-OVERLAY_STEP) },
        }
    }

    /// The state after `event` was consumed.
    pub open spec fn after(self, event: Event) -> ButtonState {
        match self.transition(event) {
            Some(transition) => self.made(transition),
            None => self,
        }
    }

    /// The state after a further `elapsed` microseconds.
    pub open spec fn tick(self, elapsed: int) -> ButtonState {
        ButtonState {
            position: self.position.advance(elapsed),
            size: self.size.advance(elapsed),
            overlay_alpha: self.overlay_alpha.advance(elapsed),
            ..self
        }
    }

    /// Consuming an event leaves a well-formed state well-formed and the
    /// geometry untouched; the overlay does not jump. The event is
    /// consumed exactly when the state changes.
    pub proof fn lemma_after(self, event: Event)
        requires
            self.wf(),
        ensures
            self.after(event).wf(),
            self.after(event).position == self.position,
            self.after(event).size == self.size,
            self.after(event).overlay_alpha.current == self.overlay_alpha.current,
            self.transition(event) is Some <==> self.after(event) != self,
    {
        if let Some(transition) = self.transition(event) {
            let delta = match transition {
                Transition::Entered | Transition::PressBegan => OVERLAY_STEP as int,
                Transition::Exited | Transition::PressEnded => -OVERLAY_STEP,
            };
            self.overlay_alpha.lemma_retarget((self.overlay_alpha.target + delta) as i32);
        }
    }

    /// What each transition presupposes: the cursor enters a button that
    /// is not hovered and leaves one that is; a press begins only over a
    /// hovered button that is not pressed, and ends only on one that is.
    pub proof fn lemma_transition_guards(self, event: Event)
        ensures
            match self.transition(event) {
                Some(Transition::Entered) => !self.hovered && event is CursorMoved && self.hit(
                    event->position,
                ),
                Some(Transition::Exited) => self.hovered && event is CursorMoved && !self.hit(
                    event->position,
                ),
                Some(Transition::PressBegan) => self.hovered && !self.pressed && event == (
                Event::MouseInput { state: ElementState::Pressed, button: MouseButton::Left }),
                Some(Transition::PressEnded) => self.pressed && event == (Event::MouseInput {
                    state: ElementState::Released,
                    button: MouseButton::Left,
                }),
                None => true,
            },
    {
    }

    /// Each transition moves the overlay's target by one step from where
    /// it was: up when the cursor enters or a press begins, down when
    /// the cursor leaves or a press ends.
    pub proof fn lemma_overlay_steps(self, event: Event)
        requires
            self.wf(),
        ensures
            self.after(event).overlay_alpha.target == self.overlay_alpha.target + match self.transition(
                event,
            ) {
                Some(Transition::Entered) | Some(Transition::PressBegan) => OVERLAY_STEP as int,
                Some(Transition::Exited) | Some(Transition::PressEnded) => -OVERLAY_STEP,
                None => 0,
            },
    {
    }

    /// The passing of time leaves a well-formed state well-formed, and
    /// changes neither the interaction state nor any target.
    pub proof fn lemma_tick(self, elapsed: int)
        requires
            self.wf(),
        ensures
            self.tick(elapsed).wf(),
            self.tick(elapsed).hovered == self.hovered,
            self.tick(elapsed).pressed == self.pressed,
            self.tick(elapsed).position.target == self.position.target,
            self.tick(elapsed).size.target == self.size.target,
            self.tick(elapsed).overlay_alpha.target == self.overlay_alpha.target,
    {
        self.position.lemma_advance(elapsed);
        self.size.lemma_advance(elapsed);
        self.overlay_alpha.lemma_advance(elapsed);
    }

    /// After a cursor position was delivered, the button is hovered
    /// exactly if that position is on it: all four edges included.
    pub proof fn lemma_hover_follows_cursor(self, cursor: Point)
        ensures
            self.after(Event::CursorMoved { position: cursor }).hovered == inside(
                self.position.current,
                self.size.current,
                cursor,
            ),
    {
    }

    /// A cursor position on the button is consumed when it is delivered
    /// to a button that is not hovered, and not when it is delivered
    /// again: the second delivery changes nothing.
    pub proof fn lemma_hover_is_idempotent(self, cursor: Point)
        requires
            !self.hovered,
            self.hit(cursor),
        ensures
            ({
                let event = Event::CursorMoved { position: cursor };
                &&& self.transition(event) == Some(Transition::Entered)
                &&& self.after(event).hovered
                &&& self.after(event).transition(event) is None
                &&& self.after(event).after(event) == self.after(event)
            }),
    {
    }

    /// A press while the button is not hovered is ignored: it is not
    /// consumed and the state stays as it is.
    pub proof fn lemma_press_requires_hover(self, button: MouseButton)
        requires
            !self.hovered,
        ensures
            ({
                let event = Event::MouseInput { state: ElementState::Pressed, button };
                &&& self.transition(event) is None
                &&& self.after(event) == self
            }),
    {
    }

    /// Once the button is pressed, releasing the primary button clears
    /// the press, wherever the cursor is and wherever it went in the
    /// meantime.
    pub proof fn lemma_release_clears_press(self, cursor: Point)
        requires
            self.pressed,
        ensures
            ({
                let release = Event::MouseInput {
                    state: ElementState::Released,
                    button: MouseButton::Left,
                };
                let moved = self.after(Event::CursorMoved { position: cursor });
                &&& self.transition(release) == Some(Transition::PressEnded)
                &&& !self.after(release).pressed
                &&& moved.pressed
                &&& moved.transition(release) == Some(Transition::PressEnded)
                &&& !moved.after(release).pressed
            }),
    {
    }

    /// Entering the button and then pressing raises the overlay's target
    /// by two steps.
    pub proof fn lemma_enter_then_press_stacks(self, cursor: Point)
        requires
            self.wf(),
            !self.hovered,
            !self.pressed,
            self.hit(cursor),
        ensures
            ({
                let enter = Event::CursorMoved { position: cursor };
                let press = Event::MouseInput {
                    state: ElementState::Pressed,
                    button: MouseButton::Left,
                };
                &&& self.after(enter).overlay_alpha.target == self.overlay_alpha.target + OVERLAY_STEP
                &&& self.after(enter).after(press).pressed
                &&& self.after(enter).after(press).overlay_alpha.target == self.overlay_alpha.target
                    + 2 * OVERLAY_STEP
            }),
    {
    }
}

/// The interaction flags together with the overlay that shows them.
#[derive(Clone, Copy)]
struct Interaction {
    /// If true, the mouse cursor is hovering over the button.
    hovered: bool,
    /// If true, the user is clicking the button.
    pressed: bool,
    /// Alpha value of the white overlay of the button (for hovered-pressed animations).
    overlay_alpha: Animated<i32>,
}

impl Interaction {
    /// Whether `transition` can be made from this state: the overlay
    /// shows the flags, and the flag that the transition is about is
    /// not yet what the transition makes it.
    spec fn admits(&self, transition: Transition) -> bool {
        &&& self.overlay_alpha@.target == ButtonState::level(self.hovered, self.pressed)
        &&& match transition {
            Transition::Entered => !self.hovered,
            Transition::Exited => self.hovered,
            Transition::PressBegan => !self.pressed,
            Transition::PressEnded => self.pressed,
        }
    }

    /// The flags and the overlay after `transition`: the flag that the
    /// transition is about flips, and the overlay's target moves one
    /// step up or down from where it is.
    fn made(self, transition: Transition) -> (next: Interaction)
        requires
            self.admits(transition),
        ensures
            next.hovered == match transition {
                Transition::Entered => true,
                Transition::Exited => false,
                _ => self.hovered,
            },
            next.pressed == match transition {
                Transition::PressBegan => true,
                Transition::PressEnded => false,
                _ => self.pressed,
            },
            next.overlay_alpha@ == self.overlay_alpha@.retarget(
                match transition {
                    Transition::Entered | Transition::PressBegan => (self.overlay_alpha@.target
                        + OVERLAY_STEP) as i32,
                    Transition::Exited | Transition::PressEnded => (self.overlay_alpha@.target
                        - OVERLAY_STEP) as i32,
                },
            ),
    {
        let mut overlay_alpha = self.overlay_alpha;
        match transition {
            Transition::Entered => {
                overlay_alpha.set_target(*overlay_alpha.target() + OVERLAY_STEP);
                Interaction { hovered: true, pressed: self.pressed, overlay_alpha }
            },
            Transition::Exited => {
                overlay_alpha.set_target(*overlay_alpha.target() - OVERLAY_STEP);
                Interaction { hovered: false, pressed: self.pressed, overlay_alpha }
            },
            Transition::PressBegan => {
                overlay_alpha.set_target(*overlay_alpha.target() + OVERLAY_STEP);
                Interaction { hovered: self.hovered, pressed: true, overlay_alpha }
            },
            Transition::PressEnded => {
                overlay_alpha.set_target(*overlay_alpha.target() - OVERLAY_STEP);
                Interaction { hovered: self.hovered, pressed: false, overlay_alpha }
            },
        }
    }

    /// The flags as they are, with the overlay moved on by `elapsed`.
    fn advanced(self, elapsed: i64) -> (next: Interaction)
        ensures
            next.hovered == self.hovered,
            next.pressed == self.pressed,
            next.overlay_alpha@ == self.overlay_alpha@.advance(elapsed as int),
    {
        let mut overlay_alpha = self.overlay_alpha;
        overlay_alpha.update(elapsed);
        Interaction { hovered: self.hovered, pressed: self.pressed, overlay_alpha }
    }
}

/// Rectangular object that can be interacted with.
pub struct Button {
    /// Position of the button in screen coordinates.
    position: Animated<Point>,
    /// Size of the button
    size: Animated<Vector>,
    /// Z-index of the button, determines which UI element is drawn on top.
    z_index: i32,
    /// Whether the button is hovered or pressed, and the overlay that shows it.
    interaction: Interaction,
    /// Background colour of the button.
    back_colour: Colour,
    /// Label.
    label: Option<String>,
}

impl View for Button {
    type V = ButtonState;

    closed spec fn view(&self) -> ButtonState {
        ButtonState {
            position: self.position@,
            size: self.size@,
            z_index: self.z_index,
            hovered: self.interaction.hovered,
            pressed: self.interaction.pressed,
            back_colour: self.back_colour,
            overlay_alpha: self.interaction.overlay_alpha@,
            label: label_chars(self.label),
        }
    }
}

impl Button {
    /// Well-formedness: the state is one that [`ButtonState::wf`] admits.
    /// Every button is well-formed.
    pub open spec fn wf(&self) -> bool {
        self@.wf()
    }

    #[verifier::type_invariant]
    spec fn inv(&self) -> bool {
        self@.wf()
    }

    /// The position, on its way to where it was last put.
    pub fn position(&self) -> (position: &Animated<Point>)
        ensures
            self.wf(),
            position@ == self@.position,
    {
        proof {
            use_type_invariant(self);
        }
        &self.position
    }

    /// The size, on its way to what it was last set to.
    pub fn size(&self) -> (size: &Animated<Vector>)
        ensures
            self.wf(),
            size@ == self@.size,
    {
        proof {
            use_type_invariant(self);
        }
        &self.size
    }

    /// The intensity of the overlay, on its way to what the interaction
    /// state asks for.
    pub fn overlay_alpha(&self) -> (overlay_alpha: &Animated<i32>)
        ensures
            self.wf(),
            overlay_alpha@ == self@.overlay_alpha,
    {
        proof {
            use_type_invariant(self);
        }
        &self.interaction.overlay_alpha
    }

    /// The z index: lower values are drawn in front of higher ones.
    pub fn z_index(&self) -> (z_index: i32)
        ensures
            z_index == self@.z_index,
    {
        self.z_index
    }

    /// Whether the cursor is over the button.
    pub fn hovered(&self) -> (hovered: bool)
        ensures
            hovered == self@.hovered,
    {
        self.interaction.hovered
    }

    /// Whether the button is held down.
    pub fn pressed(&self) -> (pressed: bool)
        ensures
            pressed == self@.pressed,
    {
        self.interaction.pressed
    }

    /// The background colour.
    pub fn back_colour(&self) -> (colour: Colour)
        ensures
            colour == self@.back_colour,
    {
        self.back_colour
    }

    /// The label, if the button has one.
    pub fn label(&self) -> (label: &Option<String>)
        ensures
            label_chars(*label) == self@.label,
    {
        &self.label
    }

    /// Process an event.
    /// If the event is directed at this button, the transition that it
    /// caused is returned to signal that the event was consumed, and the
    /// callback that [`Transition::callback`] names is due.
    /// Otherwise, `None` is returned and nothing changes.
    pub fn consume_event(&mut self, event: &Event) -> (transition: Option<Transition>)
        ensures
            final(self).wf(),
            transition == old(self)@.transition(*event),
            final(self)@ == old(self)@.after(*event),
    {
        proof {
            use_type_invariant(&*self);
            self@.lemma_after(*event);
        }
        let mut made: Option<Transition> = None;

        match event {
            Event::CursorMoved { position } => {
                // If the cursor is on the button.
                if hit_test(*self.position.current(), *self.size.current(), *position) {
                    if !self.interaction.hovered {
                        made = Some(Transition::Entered);
                    }
                } else {
                    if self.interaction.hovered {
                        made = Some(Transition::Exited);
                    }
                }
            },
            Event::MouseInput { state, button } => {
                // Only process the left mouse button.
                if *button == MouseButton::Left {
                    // If the button is already pressed, check for the mouse release.
                    if self.interaction.pressed {
                        if *state == ElementState::Released {
                            made = Some(Transition::PressEnded);
                        }
                    } else {
                        if self.interaction.hovered && *state == ElementState::Pressed {
                            made = Some(Transition::PressBegan);
                        }
                    }
                }
            },
            _ => (),
        }

        if let Some(transition) = made {
            self.interaction = self.interaction.made(transition);
        }
        made
    }

    /// Create a new button: at rest where `descriptor` puts it, neither
    /// hovered nor pressed, with no overlay.
    pub fn new(descriptor: &ButtonDescriptor) -> (button: Button)
        ensures
            button.wf(),
            button@ == ButtonState::initial(*descriptor),
    {
        Button {
            position: Animated::new(descriptor.position, GEOMETRY_DURATION),
            size: Animated::new(descriptor.size, GEOMETRY_DURATION),
            z_index: descriptor.z_index,
            interaction: Interaction {
                hovered: false,
                pressed: false,
                overlay_alpha: Animated::new(0, OVERLAY_DURATION),
            },
            back_colour: descriptor.back_colour,
            label: match &descriptor.label {
                Some(text) => Some(text.clone()),
                None => None,
            },
        }
    }

    /// Set a new absolute position for the button.
    pub fn set_position(&mut self, position: Point)
        ensures
            final(self).wf(),
            final(self)@ == (ButtonState {
                position: old(self)@.position.retarget(position),
                ..old(self)@
            }),
    {
        proof {
            use_type_invariant(&*self);
        }
        let mut moved = self.position;
        moved.set_target(position);
        self.position = moved;
    }

    /// Set a new position for the button, relative to the target position.
    pub fn set_position_offset(&mut self, offset: Vector)
        ensures
            final(self).wf(),
            final(self)@ == (ButtonState {
                position: old(self)@.position.retarget(old(self)@.position.target.moved(offset)),
                ..old(self)@
            }),
    {
        let position = self.position.target().offset_by(offset);
        self.set_position(position);
    }

    /// Set a new absolute size for the button.
    pub fn set_size(&mut self, size: Vector)
        ensures
            final(self).wf(),
            final(self)@ == (ButtonState { size: old(self)@.size.retarget(size), ..old(self)@ }),
    {
        proof {
            use_type_invariant(&*self);
        }
        let mut resized = self.size;
        resized.set_target(size);
        self.size = resized;
    }

    /// Set a new size for the button relative to the target size.
    pub fn set_size_offset(&mut self, offset: Vector)
        ensures
            final(self).wf(),
            final(self)@ == (ButtonState {
                size: old(self)@.size.retarget(old(self)@.size.target.grown(offset)),
                ..old(self)@
            }),
    {
        let size = self.size.target().plus(offset);
        self.set_size(size);
    }

    /// Set a new z index for the button.
    pub fn set_z_index(&mut self, z_index: i32)
        ensures
            final(self).wf(),
            final(self)@ == (ButtonState { z_index, ..old(self)@ }),
    {
        proof {
            use_type_invariant(&*self);
        }
        self.z_index = z_index;
    }

    /// Update the button's logic: every quantity that is on its way
    /// moves on by `elapsed` microseconds, and the result says which of
    /// them have to be shown again.
    pub fn update(&mut self, elapsed: i64) -> (refresh: Refresh)
        ensures
            final(self).wf(),
            final(self)@ == old(self)@.tick(elapsed as int),
            refresh.position == !old(self)@.position.complete(),
            refresh.size == !old(self)@.size.complete(),
            refresh.overlay_alpha == !old(self)@.overlay_alpha.complete(),
    {
        proof {
            use_type_invariant(&*self);
            self@.lemma_tick(elapsed as int);
        }
        let mut refresh = Refresh { position: false, size: false, overlay_alpha: false };

        // Position update.
        if !self.position.complete() {
            let mut position = self.position;
            position.update(elapsed);
            self.position = position;
            refresh.position = true;
        }
        // Size update.

        if !self.size.complete() {
            let mut size = self.size;
            size.update(elapsed);
            self.size = size;
            refresh.size = true;
        }
        // Overlay alpha update.

        if !self.interaction.overlay_alpha.complete() {
            self.interaction = self.interaction.advanced(elapsed);
            refresh.overlay_alpha = true;
        }
        refresh
    }
}

} // verus!
