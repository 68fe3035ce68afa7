use vstd::prelude::*;
use crate::geometry::{Bounds, Point};

verus! {

/// The direction in which an event travels through nested regions.
#[derive(Clone, Copy, Debug, PartialEq, Eq, Structural)]
pub enum DispatchPhase {
    /// From the root towards the target.
    Capture,
    /// From the target back towards the root.
    Bubble,
}

#[derive(Clone, Copy, Debug, PartialEq, Eq, Hash, Structural)]
pub enum NavigationDirection {
    Back,
    Forward,
}

#[derive(Clone, Copy, Debug, PartialEq, Eq, Hash, Structural)]
pub enum MouseButton {
    Left,
    Right,
    Middle,
    Navigate(NavigationDirection),
}

impl MouseButton {
    /// Every button, in a fixed order.
    pub fn all() -> (r: Vec<Self>)
        ensures
            r@ == seq![
                MouseButton::Left,
                MouseButton::Right,
                MouseButton::Middle,
                MouseButton::Navigate(NavigationDirection::Back),
                MouseButton::Navigate(NavigationDirection::Forward),
            ],
    {
        let r = vec![
            MouseButton::Left,
            MouseButton::Right,
            MouseButton::Middle,
            MouseButton::Navigate(NavigationDirection::Back),
            MouseButton::Navigate(NavigationDirection::Forward),
        ];
        assert(r@ =~= seq![
            MouseButton::Left,
            MouseButton::Right,
            MouseButton::Middle,
            MouseButton::Navigate(NavigationDirection::Back),
            MouseButton::Navigate(NavigationDirection::Forward),
        ]);
        r
    }
}

impl Default for MouseButton {
    fn default() -> (r: Self)
        ensures
            r == MouseButton::Left,
    {
        MouseButton::Left
    }
}

impl Default for NavigationDirection {
    fn default() -> (r: Self)
        ensures
            r == NavigationDirection::Back,
    {
        NavigationDirection::Back
    }
}

/// The modifier keys held during an event.
#[derive(Clone, Copy, Debug, PartialEq, Eq, Default)]
pub struct Modifiers {
    pub control: bool,
    pub alt: bool,
    pub shift: bool,
    pub command: bool,
    pub function: bool,
}

/// A key together with the modifiers held with it.
#[derive(Clone, Debug, PartialEq, Eq)]
pub struct Keystroke {
    pub modifiers: Modifiers,
    pub key: String,
}

#[derive(Clone, Debug, PartialEq, Eq)]
pub struct KeyDownEvent {
    pub keystroke: Keystroke,
    pub is_held: bool,
}

#[derive(Clone, Debug)]
pub struct KeyUpEvent {
    pub keystroke: Keystroke,
}

#[derive(Clone, Copy, Debug, Default)]
pub struct ModifiersChangedEvent {
    pub modifiers: Modifiers,
}

impl std::ops::Deref for ModifiersChangedEvent {
    type Target = Modifiers;

    fn deref(&self) -> &Modifiers {
        &self.modifiers
    }
}

/// The phase of a touch motion event.
#[derive(Clone, Copy, Debug)]
pub enum TouchPhase {
    Started,
    Moved,
    Ended,
}

#[derive(Clone, Copy, Debug, Default)]
pub struct MouseDownEvent {
    pub button: MouseButton,
    pub position: Point,
    pub modifiers: Modifiers,
    pub click_count: usize,
}

#[derive(Clone, Copy, Debug, Default)]
pub struct MouseUpEvent {
    pub button: MouseButton,
    pub position: Point,
    pub modifiers: Modifiers,
    pub click_count: usize,
}

/// A mouse-down and the mouse-up that completed it.
#[derive(Clone, Copy, Debug, Default)]
pub struct MouseClickEvent {
    pub down: MouseDownEvent,
    pub up: MouseUpEvent,
}

#[derive(Clone, Copy, Debug, Default)]
pub struct MouseMoveEvent {
    pub position: Point,
    pub pressed_button: Option<MouseButton>,
    pub modifiers: Modifiers,
}

#[derive(Clone, Copy, Debug, Default)]
pub struct MouseExitEvent {
    pub position: Point,
    pub pressed_button: Option<MouseButton>,
    pub modifiers: Modifiers,
}

impl std::ops::Deref for MouseExitEvent {
    type Target = Modifiers;

    fn deref(&self) -> &Modifiers {
        &self.modifiers
    }
}

/// A handle on the focus of an element.
#[derive(Clone, Copy, Debug, PartialEq, Eq, Hash)]
pub struct FocusHandle {
    pub id: usize,
}

pub struct FocusEvent {
    pub blurred: Option<FocusHandle>,
    pub focused: Option<FocusHandle>,
}

/// How far a scroll moved: in pixels, or in whole lines.
#[derive(Clone, Copy, Debug)]
pub enum ScrollDelta {
    Pixels(Point),
    Lines(Point),
}

impl Default for ScrollDelta {
    fn default() -> (r: Self)
        ensures
            r == ScrollDelta::Lines(Point { x: 0, y: 0 }),
    {
        ScrollDelta::Lines(Point { x: 0, y: 0 })
    }
}

pub open spec fn scaled(line_height: int, p: Point) -> (int, int) {
    (line_height * p.x, line_height * p.y)
}

impl ScrollDelta {
    /// Whether the delta came in pixels, as from a touch pad.
    pub fn precise(&self) -> (r: bool)
        ensures
            r == (self is Pixels),
    {
        match self {
            ScrollDelta::Pixels(_) => true,
            ScrollDelta::Lines(_) => false,
        }
    }

    /// The delta in pixels, with lines `line_height` pixels apart.
    pub fn pixel_delta(&self, line_height: i64) -> (r: Point)
        requires
            self is Lines ==> i64::MIN <= scaled(line_height as int, self->Lines_0).0 <= i64::MAX
                && i64::MIN <= scaled(line_height as int, self->Lines_0).1 <= i64::MAX,
        ensures
            self is Pixels ==> r == self->Pixels_0,
            self is Lines ==> r.x == scaled(line_height as int, self->Lines_0).0
                && r.y == scaled(line_height as int, self->Lines_0).1,
    {
        match self {
            ScrollDelta::Pixels(d) => *d,
            ScrollDelta::Lines(d) => Point { x: line_height * d.x, y: line_height * d.y },
        }
    }
}

#[derive(Clone, Copy, Debug)]
pub struct ScrollWheelEvent {
    pub position: Point,
    pub delta: ScrollDelta,
    pub modifiers: Modifiers,
    pub touch_phase: TouchPhase,
}

impl std::ops::Deref for ScrollWheelEvent {
    type Target = Modifiers;

    fn deref(&self) -> &Modifiers {
        &self.modifiers
    }
}

#[derive(Clone, Debug)]
pub enum InputEvent {
    KeyDown(KeyDownEvent),
    KeyUp(KeyUpEvent),
    ModifiersChanged(ModifiersChangedEvent),
    MouseDown(MouseDownEvent),
    MouseUp(MouseUpEvent),
    MouseMoved(MouseMoveEvent),
    MouseExited(MouseExitEvent),
    ScrollWheel(ScrollWheelEvent),
}

impl InputEvent {
    pub open spec fn spec_position(&self) -> Option<Point> {
        match self {
            InputEvent::MouseDown(e) => Some(e.position),
            InputEvent::MouseUp(e) => Some(e.position),
            InputEvent::MouseMoved(e) => Some(e.position),
            InputEvent::MouseExited(e) => Some(e.position),
            InputEvent::ScrollWheel(e) => Some(e.position),
            _ => None,
        }
    }

    /// Where a mouse event happened; keyboard events have no position.
    pub fn position(&self) -> (r: Option<Point>)
        ensures
            r == self.spec_position(),
    {
        match self {
            InputEvent::KeyDown(_) => None,
            InputEvent::KeyUp(_) => None,
            InputEvent::ModifiersChanged(_) => None,
            InputEvent::MouseDown(e) => Some(e.position),
            InputEvent::MouseUp(e) => Some(e.position),
            InputEvent::MouseMoved(e) => Some(e.position),
            InputEvent::MouseExited(e) => Some(e.position),
            InputEvent::ScrollWheel(e) => Some(e.position),
        }
    }

    /// This event, when it comes from the mouse.
    pub fn mouse_event(&self) -> (r: Option<&InputEvent>)
        ensures
            self.spec_position() is Some ==> r == Some(self),
            self.spec_position() is None ==> r is None,
    {
        match self.position() {
            Some(_) => Some(self),
            None => None,
        }
    }

    /// This event, when it comes from the keyboard.
    pub fn keyboard_event(&self) -> (r: Option<&InputEvent>)
        ensures
            self.spec_position() is None ==> r == Some(self),
            self.spec_position() is Some ==> r is None,
    {
        match self.position() {
            Some(_) => None,
            None => Some(self),
        }
    }
}

/// Identity of a callback that a view registered; the caller keeps the callback.
#[derive(Clone, Copy, Debug, PartialEq, Eq, Hash)]
pub struct ListenerId {
    pub value: u64,
}

/// A mouse listener: the phase it listens in, whether it wants events inside or
/// outside the element's bounds, and the button it is for, if any.
#[derive(Clone, Copy, Debug)]
pub struct MouseListener {
    pub listener: ListenerId,
    pub phase: DispatchPhase,
    pub inside: bool,
    pub button: Option<MouseButton>,
}

/// Identity of the type of a keyboard event or action.
#[derive(Clone, Copy, Debug, PartialEq, Eq, Hash, Structural)]
pub enum EventKind {
    KeyDown,
    KeyUp,
    Action(u64),
}

/// A listener for keyboard events or actions of one type, called in both phases.
#[derive(Clone, Copy, Debug)]
pub struct KeyListener {
    pub kind: EventKind,
    pub listener: ListenerId,
}

/// A listener for events inside the bounds, in the bubble phase.
pub open spec fn inside_listener(listener: ListenerId, button: Option<MouseButton>) -> MouseListener {
    MouseListener { listener, phase: DispatchPhase::Bubble, inside: true, button }
}

/// A listener for events outside the bounds, in the capture phase.
pub open spec fn outside_listener(listener: ListenerId, button: Option<MouseButton>) -> MouseListener {
    MouseListener { listener, phase: DispatchPhase::Capture, inside: false, button }
}

/// Whether `l` is called for an event at `pos` with `button` in `phase` on an element
/// with `bounds`.
pub open spec fn listener_fires(
    l: MouseListener,
    bounds: Bounds,
    phase: DispatchPhase,
    pos: Point,
    button: Option<MouseButton>,
) -> bool {
    &&& l.phase == phase
    &&& bounds.contains(pos) == l.inside
    &&& (l.button is None || l.button == button)
}

/// The listeners among the first `n` of `ls` that are called, in order.
pub open spec fn fired(
    ls: Seq<MouseListener>,
    bounds: Bounds,
    phase: DispatchPhase,
    pos: Point,
    button: Option<MouseButton>,
    n: int,
) -> Seq<ListenerId>
    decreases n,
{
    if n <= 0 {
        Seq::empty()
    } else if listener_fires(ls[n - 1], bounds, phase, pos, button) {
        fired(ls, bounds, phase, pos, button, n - 1).push(ls[n - 1].listener)
    } else {
        fired(ls, bounds, phase, pos, button, n - 1)
    }
}

/// The key listeners among the first `n` of `ls` registered for `kind`, in order.
pub open spec fn keyed(ls: Seq<KeyListener>, kind: EventKind, n: int) -> Seq<ListenerId>
    decreases n,
{
    if n <= 0 {
        Seq::empty()
    } else if ls[n - 1].kind == kind {
        keyed(ls, kind, n - 1).push(ls[n - 1].listener)
    } else {
        keyed(ls, kind, n - 1)
    }
}

fn fires(l: &MouseListener, bounds: &Bounds, phase: DispatchPhase, pos: &Point, button: Option<MouseButton>) -> (r: bool)
    ensures
        r == listener_fires(*l, *bounds, phase, *pos, button),
{
    let phase_ok = l.phase == phase;
    let place_ok = bounds.contains_point(pos) == l.inside;
    let button_ok = match l.button {
        None => true,
        Some(b) => match button {
            Some(e) => b == e,
            None => false,
        },
    };
    phase_ok && place_ok && button_ok
}

fn collect_fired(
    ls: &Vec<MouseListener>,
    bounds: &Bounds,
    phase: DispatchPhase,
    pos: &Point,
    button: Option<MouseButton>,
) -> (r: Vec<ListenerId>)
    ensures
        r@ == fired(ls@, *bounds, phase, *pos, button, ls@.len() as int),
{
    let mut out: Vec<ListenerId> = Vec::new();
    let mut i: usize = 0;
    while i < ls.len()
        invariant
            i <= ls@.len(),
            out@ == fired(ls@, *bounds, phase, *pos, button, i as int),
        decreases ls@.len() - i,
    {
        if fires(&ls[i], bounds, phase, pos, button) {
            out.push(ls[i].listener);
        }
        i = i + 1;
    }
    out
}

/// The listener lists of one element for one paint pass.
pub struct Interactivity {
    pub mouse_down: Vec<MouseListener>,
    pub mouse_up: Vec<MouseListener>,
    pub mouse_click: Vec<ListenerId>,
    pub mouse_move: Vec<MouseListener>,
    pub scroll_wheel: Vec<MouseListener>,
    pub key: Vec<KeyListener>,
}

/// The contents of an [`Interactivity`].
pub struct ListenerTable {
    pub mouse_down: Seq<MouseListener>,
    pub mouse_up: Seq<MouseListener>,
    pub mouse_click: Seq<ListenerId>,
    pub mouse_move: Seq<MouseListener>,
    pub scroll_wheel: Seq<MouseListener>,
    pub key: Seq<KeyListener>,
}

impl Interactivity {
    pub open spec fn view(&self) -> ListenerTable {
        ListenerTable {
            mouse_down: self.mouse_down@,
            mouse_up: self.mouse_up@,
            mouse_click: self.mouse_click@,
            mouse_move: self.mouse_move@,
            scroll_wheel: self.scroll_wheel@,
            key: self.key@,
        }
    }

    /// The key listeners registered for events of type `kind`, in registration order.
    pub fn key_listeners(&self, kind: EventKind) -> (r: Vec<ListenerId>)
        ensures
            r@ == keyed(self.key@, kind, self.key@.len() as int),
    {
        let mut out: Vec<ListenerId> = Vec::new();
        let mut i: usize = 0;
        while i < self.key.len()
            invariant
                i <= self.key@.len(),
                out@ == keyed(self.key@, kind, i as int),
            decreases self.key@.len() - i,
        {
            if self.key[i].kind == kind {
                out.push(self.key[i].listener);
            }
            i = i + 1;
        }
        out
    }
}

impl Default for Interactivity {
    fn default() -> (r: Self)
        ensures
            r@.mouse_down.len() == 0,
            r@.mouse_up.len() == 0,
            r@.mouse_click.len() == 0,
            r@.mouse_move.len() == 0,
            r@.scroll_wheel.len() == 0,
            r@.key.len() == 0,
    {
        Interactivity {
            mouse_down: Vec::new(),
            mouse_up: Vec::new(),
            mouse_click: Vec::new(),
            mouse_move: Vec::new(),
            scroll_wheel: Vec::new(),
            key: Vec::new(),
        }
    }
}

/// An element that takes listeners, builder style. Each call adds one listener to the
/// element's table for the next paint pass and leaves the rest of the table as it was.
pub trait Interactive: Sized {
    spec fn listeners(&self) -> ListenerTable;

    /// `listener` runs for a press of `button` inside the bounds, in the bubble phase.
    fn on_mouse_down(self, button: MouseButton, listener: ListenerId) -> (r: Self)
        ensures
            r.listeners() == (ListenerTable {
                mouse_down: self.listeners().mouse_down.push(inside_listener(listener, Some(button))),
                ..self.listeners()
            });

    /// `listener` runs for a release of `button` inside the bounds, in the bubble phase.
    fn on_mouse_up(self, button: MouseButton, listener: ListenerId) -> (r: Self)
        ensures
            r.listeners() == (ListenerTable {
                mouse_up: self.listeners().mouse_up.push(inside_listener(listener, Some(button))),
                ..self.listeners()
            });

    /// `listener` runs for a press of `button` outside the bounds, in the capture phase.
    fn on_mouse_down_out(self, button: MouseButton, listener: ListenerId) -> (r: Self)
        ensures
            r.listeners() == (ListenerTable {
                mouse_down: self.listeners().mouse_down.push(outside_listener(listener, Some(button))),
                ..self.listeners()
            });

    /// `listener` runs for a release of `button` outside the bounds, in the capture phase.
    fn on_mouse_up_out(self, button: MouseButton, listener: ListenerId) -> (r: Self)
        ensures
            r.listeners() == (ListenerTable {
                mouse_up: self.listeners().mouse_up.push(outside_listener(listener, Some(button))),
                ..self.listeners()
            });

    /// `listener` runs for a move inside the bounds, in the bubble phase.
    fn on_mouse_move(self, listener: ListenerId) -> (r: Self)
        ensures
            r.listeners() == (ListenerTable {
                mouse_move: self.listeners().mouse_move.push(inside_listener(listener, None)),
                ..self.listeners()
            });

    /// `listener` runs for a scroll inside the bounds, in the bubble phase.
    fn on_scroll_wheel(self, listener: ListenerId) -> (r: Self)
        ensures
            r.listeners() == (ListenerTable {
                scroll_wheel: self.listeners().scroll_wheel.push(inside_listener(listener, None)),
                ..self.listeners()
            });

    /// `listener` runs for key presses, in both phases.
    fn on_key_down(self, listener: ListenerId) -> (r: Self)
        ensures
            r.listeners() == (ListenerTable {
                key: self.listeners().key.push(KeyListener { kind: EventKind::KeyDown, listener }),
                ..self.listeners()
            });

    /// `listener` runs for key releases, in both phases.
    fn on_key_up(self, listener: ListenerId) -> (r: Self)
        ensures
            r.listeners() == (ListenerTable {
                key: self.listeners().key.push(KeyListener { kind: EventKind::KeyUp, listener }),
                ..self.listeners()
            });

    /// `listener` runs for actions of type `action`, in both phases.
    fn on_action(self, action: u64, listener: ListenerId) -> (r: Self)
        ensures
            r.listeners() == (ListenerTable {
                key: self.listeners().key.push(KeyListener { kind: EventKind::Action(action), listener }),
                ..self.listeners()
            });
}

/// An element whose clicks can be listened to.
pub trait Click: Interactive {
    /// `listener` runs for each click synthesized from a press and a release on the element.
    fn on_click(self, listener: ListenerId) -> (r: Self)
        ensures
            r.listeners() == (ListenerTable {
                mouse_click: self.listeners().mouse_click.push(listener),
                ..self.listeners()
            });
}

impl Interactive for Interactivity {
    open spec fn listeners(&self) -> ListenerTable {
        self@
    }

    fn on_mouse_down(self, button: MouseButton, listener: ListenerId) -> (r: Self) {
        let mut r = self;
        r.mouse_down.push(MouseListener { listener, phase: DispatchPhase::Bubble, inside: true, button: Some(button) });
        r
    }

    fn on_mouse_up(self, button: MouseButton, listener: ListenerId) -> (r: Self) {
        let mut r = self;
        r.mouse_up.push(MouseListener { listener, phase: DispatchPhase::Bubble, inside: true, button: Some(button) });
        r
    }

    fn on_mouse_down_out(self, button: MouseButton, listener: ListenerId) -> (r: Self) {
        let mut r = self;
        r.mouse_down.push(MouseListener { listener, phase: DispatchPhase::Capture, inside: false, button: Some(button) });
        r
    }

    fn on_mouse_up_out(self, button: MouseButton, listener: ListenerId) -> (r: Self) {
        let mut r = self;
        r.mouse_up.push(MouseListener { listener, phase: DispatchPhase::Capture, inside: false, button: Some(button) });
        r
    }

    fn on_mouse_move(self, listener: ListenerId) -> (r: Self) {
        let mut r = self;
        r.mouse_move.push(MouseListener { listener, phase: DispatchPhase::Bubble, inside: true, button: None });
        r
    }

    fn on_scroll_wheel(self, listener: ListenerId) -> (r: Self) {
        let mut r = self;
        r.scroll_wheel.push(MouseListener { listener, phase: DispatchPhase::Bubble, inside: true, button: None });
        r
    }

    fn on_key_down(self, listener: ListenerId) -> (r: Self) {
        let mut r = self;
        r.key.push(KeyListener { kind: EventKind::KeyDown, listener });
        r
    }

    fn on_key_up(self, listener: ListenerId) -> (r: Self) {
        let mut r = self;
        r.key.push(KeyListener { kind: EventKind::KeyUp, listener });
        r
    }

    fn on_action(self, action: u64, listener: ListenerId) -> (r: Self) {
        let mut r = self;
        r.key.push(KeyListener { kind: EventKind::Action(action), listener });
        r
    }
}

impl Click for Interactivity {
    fn on_click(self, listener: ListenerId) -> (r: Self) {
        let mut r = self;
        r.mouse_click.push(listener);
        r
    }
}

/// The click register of one painted element.
#[derive(Clone, Copy, Debug)]
pub enum ClickArm {
    /// No press is pending: the next press inside the bounds is recorded.
    AwaitDown,
    /// A press is pending: the next release completes or drops it.
    AwaitUp(MouseDownEvent),
    /// The pending press was consumed during this paint pass.
    Spent,
}

/// What a paint pass installed for one element: its bounds, its click register and the
/// listener lists moved out of its [`Interactivity`].
pub struct PaintedElement {
    pub bounds: Bounds,
    pub click: ClickArm,
    pub click_listeners: Vec<ListenerId>,
    pub mouse_down: Vec<MouseListener>,
    pub mouse_up: Vec<MouseListener>,
    pub mouse_move: Vec<MouseListener>,
    pub scroll_wheel: Vec<MouseListener>,
}

/// The click register a paint pass installs, given the pending press.
pub open spec fn arm_for(pending_click: Option<MouseDownEvent>) -> ClickArm {
    match pending_click {
        Some(d) => ClickArm::AwaitUp(d),
        None => ClickArm::AwaitDown,
    }
}

/// The pending press after a press `ev` reaches an element in `phase`.
pub open spec fn pending_after_down(
    arm: ClickArm,
    bounds: Bounds,
    ev: MouseDownEvent,
    phase: DispatchPhase,
    pending_click: Option<MouseDownEvent>,
) -> Option<MouseDownEvent> {
    if arm is AwaitDown && phase == DispatchPhase::Bubble && bounds.contains(ev.position) {
        Some(ev)
    } else {
        pending_click
    }
}

/// The click that a release `ev` in `phase` completes, if any.
pub open spec fn click_after_up(arm: ClickArm, bounds: Bounds, ev: MouseUpEvent, phase: DispatchPhase) -> Option<MouseClickEvent> {
    match arm {
        ClickArm::AwaitUp(d) => if phase == DispatchPhase::Bubble && bounds.contains(ev.position) {
            Some(MouseClickEvent { down: d, up: ev })
        } else {
            None
        },
        _ => None,
    }
}

/// The click register after a release in `phase`: consumed at the bubble phase.
pub open spec fn arm_after_up(arm: ClickArm, phase: DispatchPhase) -> ClickArm {
    if arm is AwaitUp && phase == DispatchPhase::Bubble {
        ClickArm::Spent
    } else {
        arm
    }
}

/// The pending press after a release reaches an element: a press it was armed with is
/// cleared whatever the release hit.
pub open spec fn pending_after_up(arm: ClickArm, pending_click: Option<MouseDownEvent>) -> Option<MouseDownEvent> {
    if arm is AwaitUp {
        None
    } else {
        pending_click
    }
}

impl Interactivity {
    /// Starts a paint pass at `bounds`: moves the mouse and click listeners out of the
    /// table, so that none of them can run in a later pass, and arms the click register
    /// from the pending press. Key listeners stay.
    pub fn paint(&mut self, bounds: Bounds, pending_click: Option<MouseDownEvent>) -> (r: PaintedElement)
        ensures
            final(self)@ == (ListenerTable {
                mouse_down: Seq::empty(),
                mouse_up: Seq::empty(),
                mouse_click: Seq::empty(),
                mouse_move: Seq::empty(),
                scroll_wheel: Seq::empty(),
                key: old(self)@.key,
            }),
            r.bounds == bounds,
            r.click == arm_for(pending_click),
            r.click_listeners@ == old(self)@.mouse_click,
            r.mouse_down@ == old(self)@.mouse_down,
            r.mouse_up@ == old(self)@.mouse_up,
            r.mouse_move@ == old(self)@.mouse_move,
            r.scroll_wheel@ == old(self)@.scroll_wheel,
    {
        let click = match pending_click {
            Some(d) => ClickArm::AwaitUp(d),
            None => ClickArm::AwaitDown,
        };
        let mut click_listeners: Vec<ListenerId> = Vec::new();
        let mut mouse_down: Vec<MouseListener> = Vec::new();
        let mut mouse_up: Vec<MouseListener> = Vec::new();
        let mut mouse_move: Vec<MouseListener> = Vec::new();
        let mut scroll_wheel: Vec<MouseListener> = Vec::new();
        std::mem::swap(&mut click_listeners, &mut self.mouse_click);
        std::mem::swap(&mut mouse_down, &mut self.mouse_down);
        std::mem::swap(&mut mouse_up, &mut self.mouse_up);
        std::mem::swap(&mut mouse_move, &mut self.mouse_move);
        std::mem::swap(&mut scroll_wheel, &mut self.scroll_wheel);
        assert(self@ =~= ListenerTable {
            mouse_down: Seq::empty(),
            mouse_up: Seq::empty(),
            mouse_click: Seq::empty(),
            mouse_move: Seq::empty(),
            scroll_wheel: Seq::empty(),
            key: old(self)@.key,
        });
        PaintedElement { bounds, click, click_listeners, mouse_down, mouse_up, mouse_move, scroll_wheel }
    }
}

impl PaintedElement {
    /// Dispatches a press in `phase`: records it as the pending press when the register
    /// waits for one and the press lands inside in the bubble phase, and returns the
    /// press listeners to call, in order.
    pub fn dispatch_mouse_down(
        &self,
        event: &MouseDownEvent,
        phase: DispatchPhase,
        pending_click: &mut Option<MouseDownEvent>,
    ) -> (r: Vec<ListenerId>)
        ensures
            *final(pending_click) == pending_after_down(self.click, self.bounds, *event, phase, *old(pending_click)),
            r@ == fired(self.mouse_down@, self.bounds, phase, event.position, Some(event.button), self.mouse_down@.len() as int),
    {
        match self.click {
            ClickArm::AwaitDown => {
                if phase == DispatchPhase::Bubble && self.bounds.contains_point(&event.position) {
                    *pending_click = Some(*event);
                }
            },
            _ => {},
        }
        collect_fired(&self.mouse_down, &self.bounds, phase, &event.position, Some(event.button))
    }

    /// Dispatches a release in `phase`: returns the click it completes, for every click
    /// listener of the element, and the release listeners to call, in order. A release
    /// clears the pending press this element was armed with; the click register is
    /// consumed at the bubble phase, so a press gives at most one click.
    pub fn dispatch_mouse_up(
        &mut self,
        event: &MouseUpEvent,
        phase: DispatchPhase,
        pending_click: &mut Option<MouseDownEvent>,
    ) -> (r: (Option<MouseClickEvent>, Vec<ListenerId>))
        ensures
            r.0 == click_after_up(old(self).click, old(self).bounds, *event, phase),
            *final(pending_click) == pending_after_up(old(self).click, *old(pending_click)),
            final(self).click == arm_after_up(old(self).click, phase),
            final(self).bounds == old(self).bounds,
            final(self).click_listeners@ == old(self).click_listeners@,
            final(self).mouse_down@ == old(self).mouse_down@,
            final(self).mouse_up@ == old(self).mouse_up@,
            final(self).mouse_move@ == old(self).mouse_move@,
            final(self).scroll_wheel@ == old(self).scroll_wheel@,
            r.1@ == fired(old(self).mouse_up@, old(self).bounds, phase, event.position, Some(event.button), old(self).mouse_up@.len() as int),
    {
        let mut click: Option<MouseClickEvent> = None;
        match self.click {
            ClickArm::AwaitUp(down) => {
                if phase == DispatchPhase::Bubble {
                    if self.bounds.contains_point(&event.position) {
                        click = Some(MouseClickEvent { down, up: *event });
                    }
                    self.click = ClickArm::Spent;
                }
                *pending_click = None;
            },
            _ => {},
        }
        let fired_up = collect_fired(&self.mouse_up, &self.bounds, phase, &event.position, Some(event.button));
        (click, fired_up)
    }

    /// The move listeners to call for `event` in `phase`, in order.
    pub fn dispatch_mouse_move(&self, event: &MouseMoveEvent, phase: DispatchPhase) -> (r: Vec<ListenerId>)
        ensures
            r@ == fired(self.mouse_move@, self.bounds, phase, event.position, None, self.mouse_move@.len() as int),
    {
        collect_fired(&self.mouse_move, &self.bounds, phase, &event.position, None)
    }

    /// The scroll listeners to call for `event` in `phase`, in order.
    pub fn dispatch_scroll_wheel(&self, event: &ScrollWheelEvent, phase: DispatchPhase) -> (r: Vec<ListenerId>)
        ensures
            r@ == fired(self.scroll_wheel@, self.bounds, phase, event.position, None, self.scroll_wheel@.len() as int),
    {
        collect_fired(&self.scroll_wheel, &self.bounds, phase, &event.position, None)
    }
}

/// A press at P inside the bounds, on an element painted with no pending press, becomes
/// the pending press; on the element painted next, a release at Q inside the bounds then
/// makes one click whose press is at P and whose release is at Q, and a release outside
/// makes none. Either way the release clears the pending press, and once the release has
/// bubbled no later release of that pass makes a click.
pub proof fn lemma_click_from_press_and_release(bounds: Bounds, down: MouseDownEvent, up: MouseUpEvent)
    requires
        bounds.contains(down.position),
    ensures
        ({
            let pending = pending_after_down(arm_for(None), bounds, down, DispatchPhase::Bubble, None);
            let arm = arm_for(pending);
            let captured = arm_after_up(arm, DispatchPhase::Capture);
            &&& pending == Some(down)
            &&& click_after_up(arm, bounds, up, DispatchPhase::Capture) is None
            &&& bounds.contains(up.position) ==> click_after_up(captured, bounds, up, DispatchPhase::Bubble)
                == Some(MouseClickEvent { down, up })
            &&& bounds.contains(up.position) ==> click_after_up(captured, bounds, up, DispatchPhase::Bubble)->0.down.position
                == down.position
            &&& bounds.contains(up.position) ==> click_after_up(captured, bounds, up, DispatchPhase::Bubble)->0.up.position
                == up.position
            &&& !bounds.contains(up.position) ==> click_after_up(captured, bounds, up, DispatchPhase::Bubble) is None
            &&& pending_after_up(arm, pending) is None
            &&& forall|later: MouseUpEvent, phase: DispatchPhase|
                click_after_up(arm_after_up(captured, DispatchPhase::Bubble), bounds, later, phase) is None
        }),
{
}

/// Capture-phase listeners for the outside of an element run exactly for events outside
/// its bounds, bubble-phase listeners for the inside exactly for events inside, and
/// neither runs in the other phase.
pub proof fn lemma_inside_outside_listeners(bounds: Bounds, pos: Point, button: MouseButton, listener: ListenerId)
    ensures
        listener_fires(outside_listener(listener, Some(button)), bounds, DispatchPhase::Capture, pos, Some(button))
            == !bounds.contains(pos),
        listener_fires(inside_listener(listener, Some(button)), bounds, DispatchPhase::Bubble, pos, Some(button))
            == bounds.contains(pos),
        !listener_fires(outside_listener(listener, Some(button)), bounds, DispatchPhase::Bubble, pos, Some(button)),
        !listener_fires(inside_listener(listener, Some(button)), bounds, DispatchPhase::Capture, pos, Some(button)),
{
}

/// A point on an edge of the bounds counts as inside.
pub proof fn lemma_edge_counts_inside(bounds: Bounds, pos: Point)
    requires
        bounds.size.width >= 0,
        bounds.size.height >= 0,
        (pos.x == bounds.origin.x || pos.x == bounds.origin.x + bounds.size.width)
            && bounds.origin.y <= pos.y <= bounds.origin.y + bounds.size.height
        || (pos.y == bounds.origin.y || pos.y == bounds.origin.y + bounds.size.height)
            && bounds.origin.x <= pos.x <= bounds.origin.x + bounds.size.width,
    ensures
        bounds.contains(pos),
{
}

} // verus!
