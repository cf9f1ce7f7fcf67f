//! Window-system events: the properties a script's event object receives
//! for each event, and what the window thread does with events and with the
//! requests it is sent.
//!
//! Floating-point coordinates and deltas travel as the bit patterns of their
//! `f64` values (`f64::to_bits`); they are passed through, never computed on.

use vstd::prelude::*;

verus! {

/// Whether a button or key went down or up.
#[derive(Clone, Copy, PartialEq, Eq, Structural, Debug)]
pub enum ElementState {
    Pressed,
    Released,
}

/// A mouse button; `Other` carries the platform's button number.
#[derive(Clone, Copy, PartialEq, Eq, Structural, Debug)]
pub enum MouseButton {
    Left,
    Right,
    Middle,
    Other(u8),
}

/// The stage of a touch.
#[derive(Clone, Copy, PartialEq, Eq, Structural, Debug)]
pub enum TouchPhase {
    Started,
    Moved,
    Ended,
    Cancelled,
}

/// A scroll amount, in lines or in pixels; each coordinate is the bit
/// pattern of an `f64`.
#[derive(Clone, Copy, PartialEq, Eq, Structural, Debug)]
pub enum ScrollDelta {
    LineDelta(u64, u64),
    PixelDelta(u64, u64),
}

/// An event concerning the window itself.
#[derive(Clone, Copy, PartialEq, Eq, Structural, Debug)]
pub enum WindowInput {
    Resized(u32, u32),
    Moved(i32, i32),
    CloseRequested,
    ReceivedCharacter(char),
    Focused(bool),
    KeyboardInput { scancode: u32 },
    /// Position as `f64` bit patterns.
    CursorMoved { x: u64, y: u64 },
    CursorEntered,
    CursorLeft,
    MouseWheel(ScrollDelta),
    MouseInput { state: ElementState, button: MouseButton },
    Refresh,
    /// Location as `f64` bit patterns.
    Touch { phase: TouchPhase, x: u64, y: u64, id: u64 },
    /// Any other window event: files dropped or hovered, the window
    /// destroyed, axis motion, scale changes.
    Other,
}

/// An event from the window system.
#[derive(Clone, Copy, PartialEq, Eq, Structural, Debug)]
pub enum InputEvent {
    Device,
    Window(WindowInput),
    Suspended,
    Awakened,
}

/// A property value as the script sees it.
#[derive(Clone, Debug, PartialEq)]
pub enum PropValue {
    Str(String),
    /// A one-character string.
    Char(char),
    Bool(bool),
    Int(i64),
    UInt(u64),
    /// A number given by the bit pattern of an `f64`.
    Number(u64),
}

/// The mathematical form of a [`PropValue`].
pub enum JsVal {
    Str(Seq<char>),
    Char(char),
    Bool(bool),
    Int(int),
    UInt(nat),
    Number(u64),
}

impl View for PropValue {
    type V = JsVal;

    open spec fn view(&self) -> JsVal {
        match self {
            PropValue::Str(s) => JsVal::Str(s@),
            PropValue::Char(c) => JsVal::Char(*c),
            PropValue::Bool(b) => JsVal::Bool(*b),
            PropValue::Int(i) => JsVal::Int(*i as int),
            PropValue::UInt(u) => JsVal::UInt(*u as nat),
            PropValue::Number(bits) => JsVal::Number(*bits),
        }
    }
}

/// One property to set on an event object.
#[derive(Clone, Debug, PartialEq)]
pub struct Prop {
    pub name: String,
    pub value: PropValue,
}

impl View for Prop {
    type V = (Seq<char>, JsVal);

    open spec fn view(&self) -> (Seq<char>, JsVal) {
        (self.name@, self.value@)
    }
}

/// The mathematical form of a list of properties.
pub open spec fn props_view(s: Seq<Prop>) -> Seq<(Seq<char>, JsVal)> {
    s.map_values(|p: Prop| p@)
}

pub open spec fn str_prop(name: Seq<char>, value: Seq<char>) -> (Seq<char>, JsVal) {
    (name, JsVal::Str(value))
}

/// The number a mouse button is reported as.
pub open spec fn button_number(b: MouseButton) -> nat {
    match b {
        MouseButton::Left => 0,
        MouseButton::Right => 1,
        MouseButton::Middle => 2,
        MouseButton::Other(n) => n as nat,
    }
}

/// The name a touch phase is reported as.
pub open spec fn phase_name(p: TouchPhase) -> Seq<char> {
    match p {
        TouchPhase::Started => "started"@,
        TouchPhase::Moved => "moved"@,
        TouchPhase::Ended => "ended"@,
        TouchPhase::Cancelled => "cancelled"@,
    }
}

/// The properties describing a scroll amount.
pub open spec fn delta_props(d: ScrollDelta) -> Seq<(Seq<char>, JsVal)> {
    match d {
        ScrollDelta::LineDelta(x, y) => seq![
            str_prop("deltakind"@, "line"@),
            ("x"@, JsVal::Number(x)),
            ("y"@, JsVal::Number(y)),
        ],
        ScrollDelta::PixelDelta(x, y) => seq![
            str_prop("deltakind"@, "pixel"@),
            ("x"@, JsVal::Number(x)),
            ("y"@, JsVal::Number(y)),
        ],
    }
}

/// The properties describing a window event, after its kind.
pub open spec fn window_props(w: WindowInput) -> Seq<(Seq<char>, JsVal)> {
    match w {
        WindowInput::Resized(width, height) => seq![
            str_prop("type"@, "resized"@),
            ("width"@, JsVal::UInt(width as nat)),
            ("height"@, JsVal::UInt(height as nat)),
        ],
        WindowInput::Moved(x, y) => seq![
            str_prop("type"@, "moved"@),
            ("x"@, JsVal::Int(x as int)),
            ("y"@, JsVal::Int(y as int)),
        ],
        WindowInput::CloseRequested => seq![str_prop("type"@, "closed"@)],
        WindowInput::ReceivedCharacter(c) => seq![
            str_prop("type"@, "char"@),
            ("char"@, JsVal::Char(c)),
        ],
        WindowInput::Focused(f) => seq![
            str_prop("type"@, "focused"@),
            ("focused"@, JsVal::Bool(f)),
        ],
        WindowInput::KeyboardInput { scancode } => seq![
            str_prop("type"@, "key"@),
            ("scancode"@, JsVal::UInt(scancode as nat)),
        ],
        WindowInput::CursorMoved { x, y } => seq![
            str_prop("type"@, "cursormoved"@),
            ("x"@, JsVal::Number(x)),
            ("y"@, JsVal::Number(y)),
        ],
        WindowInput::CursorEntered => seq![str_prop("type"@, "cursorentered"@)],
        WindowInput::CursorLeft => seq![str_prop("type"@, "cursorleft"@)],
        WindowInput::MouseWheel(d) => seq![str_prop("type"@, "wheel"@)] + delta_props(d),
        WindowInput::MouseInput { state, button } => seq![
            str_prop("type"@, "mouse"@),
            ("pressed"@, JsVal::Bool(state == ElementState::Pressed)),
            ("button"@, JsVal::UInt(button_number(button))),
        ],
        WindowInput::Refresh => seq![str_prop("type"@, "refresh"@)],
        WindowInput::Touch { phase, x, y, id } => seq![
            str_prop("type"@, "touch"@),
            str_prop("phase"@, phase_name(phase)),
            ("pressed"@, JsVal::Bool(phase == TouchPhase::Started || phase == TouchPhase::Moved)),
            ("x"@, JsVal::Number(x)),
            ("y"@, JsVal::Number(y)),
            ("id"@, JsVal::UInt(id as nat)),
        ],
        WindowInput::Other => Seq::empty(),
    }
}

/// The properties, in the order they are set, that describe `ev` to a
/// script: its kind and, for window events, what happened.
pub open spec fn event_props(ev: InputEvent) -> Seq<(Seq<char>, JsVal)> {
    match ev {
        InputEvent::Device => seq![str_prop("kind"@, "device"@)],
        InputEvent::Window(w) => seq![str_prop("kind"@, "window"@)] + window_props(w),
        InputEvent::Suspended => seq![str_prop("kind"@, "suspended"@)],
        InputEvent::Awakened => seq![str_prop("kind"@, "awakened"@)],
    }
}

fn push_prop(props: &mut Vec<Prop>, name: &str, value: PropValue)
    ensures
        props_view(final(props)@) == props_view(old(props)@).push((name@, value@)),
{
    let ghost before = props@;
    let ghost v = value@;
    props.push(Prop { name: String::from_str(name), value });
    proof {
        assert(props_view(props@) =~= props_view(before).push((name@, v)));
    }
}

fn push_str_prop(props: &mut Vec<Prop>, name: &str, value: &str)
    ensures
        props_view(final(props)@) == props_view(old(props)@).push(str_prop(name@, value@)),
{
    push_prop(props, name, PropValue::Str(String::from_str(value)));
}

fn push_delta_props(props: &mut Vec<Prop>, d: ScrollDelta)
    ensures
        props_view(final(props)@) == props_view(old(props)@) + delta_props(d),
{
    let ghost before = props_view(props@);
    match d {
        ScrollDelta::LineDelta(x, y) => {
            push_str_prop(props, "deltakind", "line");
            push_prop(props, "x", PropValue::Number(x));
            push_prop(props, "y", PropValue::Number(y));
        },
        ScrollDelta::PixelDelta(x, y) => {
            push_str_prop(props, "deltakind", "pixel");
            push_prop(props, "x", PropValue::Number(x));
            push_prop(props, "y", PropValue::Number(y));
        },
    }
    assert(props_view(props@) =~= before + delta_props(d));
}

fn push_window_props(props: &mut Vec<Prop>, w: WindowInput)
    ensures
        props_view(final(props)@) == props_view(old(props)@) + window_props(w),
{
    let ghost before = props_view(props@);
    match w {
        WindowInput::Resized(width, height) => {
            push_str_prop(props, "type", "resized");
            push_prop(props, "width", PropValue::UInt(width as u64));
            push_prop(props, "height", PropValue::UInt(height as u64));
        },
        WindowInput::Moved(x, y) => {
            push_str_prop(props, "type", "moved");
            push_prop(props, "x", PropValue::Int(x as i64));
            push_prop(props, "y", PropValue::Int(y as i64));
        },
        WindowInput::CloseRequested => {
            push_str_prop(props, "type", "closed");
        },
        WindowInput::ReceivedCharacter(c) => {
            push_str_prop(props, "type", "char");
            push_prop(props, "char", PropValue::Char(c));
        },
        WindowInput::Focused(f) => {
            push_str_prop(props, "type", "focused");
            push_prop(props, "focused", PropValue::Bool(f));
        },
        WindowInput::KeyboardInput { scancode } => {
            push_str_prop(props, "type", "key");
            push_prop(props, "scancode", PropValue::UInt(scancode as u64));
        },
        WindowInput::CursorMoved { x, y } => {
            push_str_prop(props, "type", "cursormoved");
            push_prop(props, "x", PropValue::Number(x));
            push_prop(props, "y", PropValue::Number(y));
        },
        WindowInput::CursorEntered => {
            push_str_prop(props, "type", "cursorentered");
        },
        WindowInput::CursorLeft => {
            push_str_prop(props, "type", "cursorleft");
        },
        WindowInput::MouseWheel(d) => {
            push_str_prop(props, "type", "wheel");
            push_delta_props(props, d);
        },
        WindowInput::MouseInput { state, button } => {
            push_str_prop(props, "type", "mouse");
            let pressed = match state {
                ElementState::Pressed => true,
                ElementState::Released => false,
            };
            push_prop(props, "pressed", PropValue::Bool(pressed));
            let n: u64 = match button {
                MouseButton::Left => 0,
                MouseButton::Right => 1,
                MouseButton::Middle => 2,
                MouseButton::Other(n) => n as u64,
            };
            push_prop(props, "button", PropValue::UInt(n));
        },
        WindowInput::Refresh => {
            push_str_prop(props, "type", "refresh");
        },
        WindowInput::Touch { phase, x, y, id } => {
            push_str_prop(props, "type", "touch");
            let (name, pressed) = match phase {
                TouchPhase::Started => ("started", true),
                TouchPhase::Moved => ("moved", true),
                TouchPhase::Ended => ("ended", false),
                TouchPhase::Cancelled => ("cancelled", false),
            };
            push_str_prop(props, "phase", name);
            push_prop(props, "pressed", PropValue::Bool(pressed));
            push_prop(props, "x", PropValue::Number(x));
            push_prop(props, "y", PropValue::Number(y));
            push_prop(props, "id", PropValue::UInt(id));
        },
        WindowInput::Other => {},
    }
    assert(props_view(props@) =~= before + window_props(w));
}

/// The properties, in order, that the event object for `ev` receives.
pub fn event_properties(ev: &InputEvent) -> (r: Vec<Prop>)
    ensures
        props_view(r@) == event_props(*ev),
{
    let mut props: Vec<Prop> = Vec::new();
    assert(props_view(props@) =~= Seq::empty());
    match *ev {
        InputEvent::Device => push_str_prop(&mut props, "kind", "device"),
        InputEvent::Window(w) => {
            push_str_prop(&mut props, "kind", "window");
            push_window_props(&mut props, w);
        },
        InputEvent::Suspended => push_str_prop(&mut props, "kind", "suspended"),
        InputEvent::Awakened => push_str_prop(&mut props, "kind", "awakened"),
    }
    assert(props_view(props@) =~= event_props(*ev));
    props
}

/// What the window thread does with an event it has polled.
#[derive(Clone, Copy, PartialEq, Eq, Debug)]
pub struct PollAction {
    /// Stop the thread's loop and hide the window.
    pub close_window: bool,
    /// Tell the script side that the window was closed.
    pub notify_closed: bool,
    /// Resize the drawing surface to this width and height.
    pub resize: Option<(u32, u32)>,
    /// Pass the event on to the script side.
    pub forward: bool,
}

pub open spec fn spec_poll_action(ev: InputEvent) -> PollAction {
    match ev {
        InputEvent::Window(WindowInput::CloseRequested) => PollAction {
            close_window: true,
            notify_closed: true,
            resize: None,
            forward: true,
        },
        InputEvent::Window(WindowInput::Resized(w, h)) => PollAction {
            close_window: false,
            notify_closed: false,
            resize: Some((w, h)),
            forward: true,
        },
        InputEvent::Awakened => PollAction {
            close_window: false,
            notify_closed: false,
            resize: None,
            forward: false,
        },
        _ => PollAction { close_window: false, notify_closed: false, resize: None, forward: true },
    }
}

/// What the window thread does with a polled event: a close request closes
/// the window and is reported, a resize resizes the surface, a wake-up is
/// dropped, and every other event is passed on unchanged.
pub fn poll_action(ev: &InputEvent) -> (r: PollAction)
    ensures
        r == spec_poll_action(*ev),
{
    match *ev {
        InputEvent::Window(WindowInput::CloseRequested) => PollAction {
            close_window: true,
            notify_closed: true,
            resize: None,
            forward: true,
        },
        InputEvent::Window(WindowInput::Resized(w, h)) => PollAction {
            close_window: false,
            notify_closed: false,
            resize: Some((w, h)),
            forward: true,
        },
        InputEvent::Awakened => PollAction {
            close_window: false,
            notify_closed: false,
            resize: None,
            forward: false,
        },
        _ => PollAction { close_window: false, notify_closed: false, resize: None, forward: true },
    }
}

/// A request sent to the window thread: run a task with the GL context,
/// answer a ping, or close the window.
#[derive(Clone, Copy, PartialEq, Eq, Structural, Debug)]
pub enum WindowRequest {
    Do,
    Ping,
    Close,
}

/// What the window thread does with a request.
#[derive(Clone, Copy, PartialEq, Eq, Structural, Debug)]
pub struct RequestAction {
    pub run_task: bool,
    pub answer_pong: bool,
    pub close_window: bool,
}

/// Each request does exactly its own thing: a task is run, a ping is
/// answered, a close closes the window.
pub fn request_action(req: WindowRequest) -> (r: RequestAction)
    ensures
        r.run_task == (req == WindowRequest::Do),
        r.answer_pong == (req == WindowRequest::Ping),
        r.close_window == (req == WindowRequest::Close),
{
    match req {
        WindowRequest::Do => RequestAction { run_task: true, answer_pong: false, close_window: false },
        WindowRequest::Ping => RequestAction { run_task: false, answer_pong: true, close_window: false },
        WindowRequest::Close => RequestAction { run_task: false, answer_pong: false, close_window: true },
    }
}

/// Whether an event is handed to the window object's `onevent` handler:
/// only when the handler could be read and is neither null nor undefined.
pub fn should_call_handler(read_ok: bool, handler_is_null_or_undefined: bool) -> (r: bool)
    ensures
        r == (read_ok && !handler_is_null_or_undefined),
{
    read_ok && !handler_is_null_or_undefined
}

/// Every event that reaches a script carries its kind first.
pub proof fn lemma_kind_comes_first(ev: InputEvent)
    ensures
        event_props(ev).len() >= 1,
        event_props(ev)[0].0 == "kind"@,
{
}

/// Only wake-ups are kept from scripts; closing is always reported.
pub proof fn lemma_forwarding(ev: InputEvent)
    ensures
        spec_poll_action(ev).forward <==> ev != InputEvent::Awakened,
        spec_poll_action(ev).notify_closed <==> spec_poll_action(ev).close_window,
{
}

/// A mouse event reports whether the button went down and which button it
/// was, by a fixed numbering: left 0, right 1, middle 2, and any other
/// button by the platform's own number.
pub proof fn lemma_mouse_properties(state: ElementState, button: MouseButton)
    ensures
        ({
            let p = event_props(InputEvent::Window(WindowInput::MouseInput { state, button }));
            &&& p.len() == 4
            &&& p[1] == str_prop("type"@, "mouse"@)
            &&& p[2] == ("pressed"@, JsVal::Bool(state == ElementState::Pressed))
            &&& button == MouseButton::Left ==> p[3] == ("button"@, JsVal::UInt(0))
            &&& button == MouseButton::Right ==> p[3] == ("button"@, JsVal::UInt(1))
            &&& button == MouseButton::Middle ==> p[3] == ("button"@, JsVal::UInt(2))
            &&& forall|n: u8| button == MouseButton::Other(n) ==> p[3] == ("button"@, JsVal::UInt(n as nat))
        }),
{
}

/// Clicks of two different buttons among left, right and middle are told
/// apart by the script: their event objects differ.
pub proof fn lemma_buttons_distinguished(state: ElementState, b1: MouseButton, b2: MouseButton)
    requires
        !(b1 is Other),
        !(b2 is Other),
        b1 != b2,
    ensures
        event_props(InputEvent::Window(WindowInput::MouseInput { state, button: b1 }))
            != event_props(InputEvent::Window(WindowInput::MouseInput { state, button: b2 })),
{
    let p1 = event_props(InputEvent::Window(WindowInput::MouseInput { state, button: b1 }));
    let p2 = event_props(InputEvent::Window(WindowInput::MouseInput { state, button: b2 }));
    assert(p1[3] != p2[3]);
}

/// A focus change carries the event's own flag: gaining focus is reported
/// as `focused: true`, losing it as `focused: false`.
pub proof fn lemma_focus_flag(f: bool)
    ensures
        ({
            let p = event_props(InputEvent::Window(WindowInput::Focused(f)));
            &&& p.len() == 3
            &&& p[1] == str_prop("type"@, "focused"@)
            &&& p[2] == ("focused"@, JsVal::Bool(f))
        }),
        event_props(InputEvent::Window(WindowInput::Focused(true)))
            != event_props(InputEvent::Window(WindowInput::Focused(false))),
{
    let pt = event_props(InputEvent::Window(WindowInput::Focused(true)));
    let pf = event_props(InputEvent::Window(WindowInput::Focused(false)));
    assert(pt[2] != pf[2]);
}

/// Only a close request closes the window, and only a resize resizes the
/// surface, to exactly the size the event gives.
pub proof fn lemma_only_close_closes(ev: InputEvent)
    ensures
        spec_poll_action(ev).close_window <==> ev == InputEvent::Window(WindowInput::CloseRequested),
        spec_poll_action(ev).resize is Some <==> (ev matches InputEvent::Window(WindowInput::Resized(_, _))),
        forall|w: u32, h: u32| ev == InputEvent::Window(WindowInput::Resized(w, h))
            ==> spec_poll_action(ev).resize == Some((w, h)),
{
}

/// A resize reports the new width, then the new height, as given.
pub proof fn lemma_resize_properties(w: u32, h: u32)
    ensures
        ({
            let p = event_props(InputEvent::Window(WindowInput::Resized(w, h)));
            &&& p.len() == 4
            &&& p[1] == str_prop("type"@, "resized"@)
            &&& p[2] == ("width"@, JsVal::UInt(w as nat))
            &&& p[3] == ("height"@, JsVal::UInt(h as nat))
        }),
{
}

/// A touch is reported as pressed while it starts or moves, and not once
/// it has ended or been cancelled; its identifier is passed on as given.
pub proof fn lemma_touch_pressed(phase: TouchPhase, x: u64, y: u64, id: u64)
    ensures
        ({
            let p = event_props(InputEvent::Window(WindowInput::Touch { phase, x, y, id }));
            &&& p.len() == 7
            &&& p[3] == ("pressed"@, JsVal::Bool(!(phase == TouchPhase::Ended || phase == TouchPhase::Cancelled)))
            &&& p[6] == ("id"@, JsVal::UInt(id as nat))
        }),
{
}

} // verus!
