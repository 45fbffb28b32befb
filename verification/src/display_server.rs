//! The decisions of the display-server adapter: which request registers the
//! window manager, what becomes of the answer, and which request answers
//! each event. Sending and receiving is left to the caller.
//!
//! Every window is treated as floating: what a client asks for is passed on
//! as it came, and no request is placed by a tiling layout.

use vstd::prelude::*;

verus! {

/// The name the window manager goes by on this display server.
pub const NAME: &'static str = "AquariWM (X11)";

/// Events on the children of a window are reported to the selecting client.
pub const SUBSTRUCTURE_NOTIFY: u32 = 0x0008_0000;

/// Requests to map, configure or restack the children of a window are sent
/// to the selecting client in place of being carried out.
pub const SUBSTRUCTURE_REDIRECT: u32 = 0x0010_0000;

/// Where a circulate request wants its window.
#[derive(Clone, Copy, Debug, PartialEq, Eq, Structural)]
pub enum Place {
    OnTop,
    OnBottom,
}

/// The two ways of circulating the children of a window.
#[derive(Clone, Copy, Debug, PartialEq, Eq, Structural)]
pub enum Circulate {
    RaiseLowest,
    LowerHighest,
}

/// How a window is to be stacked against its sibling.
#[derive(Clone, Copy, Debug, PartialEq, Eq, Structural)]
pub enum StackMode {
    Above,
    Below,
    TopIf,
    BottomIf,
    Opposite,
}

/// A client's request to configure its window. Bit `n` of `value_mask` says
/// whether the request sets the `n`-th of: x, y, width, height, border width,
/// sibling, stack mode.
#[derive(Clone, Copy, Debug, PartialEq, Eq, Structural)]
pub struct ConfigureRequest {
    pub window: u32,
    pub value_mask: u16,
    pub x: i16,
    pub y: i16,
    pub width: u16,
    pub height: u16,
    pub border_width: u16,
    pub sibling: u32,
    pub stack_mode: StackMode,
}

/// One value of a request to configure a window.
#[derive(Clone, Copy, Debug, PartialEq, Eq, Structural)]
pub enum ConfigWindow {
    X(i32),
    Y(i32),
    Width(u32),
    Height(u32),
    BorderWidth(u32),
    Sibling(u32),
    StackMode(StackMode),
}

/// What the display server reports.
#[derive(Clone, Copy, Debug, PartialEq, Eq, Structural)]
pub enum Event {
    MapRequest { window: u32 },
    ConfigureRequest(ConfigureRequest),
    CirculateRequest { window: u32, place: Place },
    UnmapNotify { window: u32 },
    Other,
}

/// What the adapter asks of the display server.
#[derive(Debug, PartialEq, Eq)]
pub enum Request {
    ChangeWindowAttributes { window: u32, event_mask: u32 },
    MapWindow { window: u32 },
    ConfigureWindow { window: u32, value_list: Vec<ConfigWindow> },
    CirculateWindow { window: u32, direction: Circulate },
}

/// What went wrong between the adapter and the display server.
#[derive(Clone, Copy, Debug, PartialEq, Eq, Structural)]
pub enum Failure {
    /// The connection failed.
    Connection,
    /// The display server refused a request.
    Protocol,
}

/// The errors of the adapter.
#[derive(Clone, Copy, Debug, PartialEq, Eq, Structural)]
pub enum Error {
    Xcb(Failure),
    Io,
}

/// How far the adapter has come.
#[derive(Clone, Copy, Debug, PartialEq, Eq, Structural)]
pub enum Phase {
    /// The registration was sent and is not answered yet.
    Registering,
    /// The adapter is the window manager of the display.
    Registered,
    /// The registration was refused.
    Refused,
}

/// The adapter's state: the root window it manages and its phase.
#[derive(Clone, Copy, Debug, PartialEq, Eq, Structural)]
pub struct Adapter {
    pub root: u32,
    pub phase: Phase,
}

/// The value that `request` sets for bit `bit` of its mask, if it sets one.
pub open spec fn entry(request: ConfigureRequest, bit: int) -> Seq<ConfigWindow> {
    if bit == 0 && request.value_mask & 0x01 != 0 {
        seq![ConfigWindow::X(request.x as i32)]
    } else if bit == 1 && request.value_mask & 0x02 != 0 {
        seq![ConfigWindow::Y(request.y as i32)]
    } else if bit == 2 && request.value_mask & 0x04 != 0 {
        seq![ConfigWindow::Width(request.width as u32)]
    } else if bit == 3 && request.value_mask & 0x08 != 0 {
        seq![ConfigWindow::Height(request.height as u32)]
    } else if bit == 4 && request.value_mask & 0x10 != 0 {
        seq![ConfigWindow::BorderWidth(request.border_width as u32)]
    } else if bit == 5 && request.value_mask & 0x20 != 0 {
        seq![ConfigWindow::Sibling(request.sibling)]
    } else if bit == 6 && request.value_mask & 0x40 != 0 {
        seq![ConfigWindow::StackMode(request.stack_mode)]
    } else {
        Seq::empty()
    }
}

/// The values that `request` sets for the first `bits` bits of its mask, in
/// the order of the bits.
pub open spec fn entries(request: ConfigureRequest, bits: int) -> Seq<ConfigWindow>
    decreases bits,
{
    if bits <= 0 {
        Seq::empty()
    } else {
        entries(request, bits - 1) + entry(request, bits - 1)
    }
}

/// The direction that puts a window where `place` wants it.
pub open spec fn direction_of(place: Place) -> Circulate {
    match place {
        Place::OnTop => Circulate::RaiseLowest,
        Place::OnBottom => Circulate::LowerHighest,
    }
}

/// Whether `request` is the answer to `event`: a map request is granted, a
/// configure request is passed on with the values it set, a circulate
/// request is passed on as the matching direction, and nothing else is
/// answered.
pub open spec fn answers(event: Event, request: Option<Request>) -> bool {
    match event {
        Event::MapRequest { window } => request == Some(Request::MapWindow { window }),
        Event::ConfigureRequest(configure) => {
            &&& request matches Some(Request::ConfigureWindow { window, value_list })
            &&& window == configure.window
            &&& value_list@ == entries(configure, 7)
        },
        Event::CirculateRequest { window, place } => request == Some(
            Request::CirculateWindow { window, direction: direction_of(place) },
        ),
        Event::UnmapNotify { .. } => request is None,
        Event::Other => request is None,
    }
}

/// Returns the values that `request` sets, in the order of its mask.
pub fn value_list(request: &ConfigureRequest) -> (list: Vec<ConfigWindow>)
    ensures
        list@ == entries(*request, 7),
{
    let mut list: Vec<ConfigWindow> = Vec::new();
    assert(list@ =~= entries(*request, 0));
    if request.value_mask & 0x01 != 0 {
        list.push(ConfigWindow::X(request.x as i32));
    }
    assert(list@ =~= entries(*request, 1));
    if request.value_mask & 0x02 != 0 {
        list.push(ConfigWindow::Y(request.y as i32));
    }
    assert(list@ =~= entries(*request, 2));
    if request.value_mask & 0x04 != 0 {
        list.push(ConfigWindow::Width(request.width as u32));
    }
    assert(list@ =~= entries(*request, 3));
    if request.value_mask & 0x08 != 0 {
        list.push(ConfigWindow::Height(request.height as u32));
    }
    assert(list@ =~= entries(*request, 4));
    if request.value_mask & 0x10 != 0 {
        list.push(ConfigWindow::BorderWidth(request.border_width as u32));
    }
    assert(list@ =~= entries(*request, 5));
    if request.value_mask & 0x20 != 0 {
        list.push(ConfigWindow::Sibling(request.sibling));
    }
    assert(list@ =~= entries(*request, 6));
    if request.value_mask & 0x40 != 0 {
        list.push(ConfigWindow::StackMode(request.stack_mode));
    }
    assert(list@ =~= entries(*request, 7));
    list
}

/// Returns the direction that puts a window where `place` wants it.
pub fn circulate_direction(place: Place) -> (direction: Circulate)
    ensures
        direction == direction_of(place),
{
    match place {
        Place::OnTop => Circulate::RaiseLowest,
        Place::OnBottom => Circulate::LowerHighest,
    }
}

/// Returns the request that answers `event`, if it is answered.
pub fn respond(event: &Event) -> (request: Option<Request>)
    ensures
        answers(*event, request),
{
    match event {
        Event::MapRequest { window } => Some(Request::MapWindow { window: *window }),
        Event::ConfigureRequest(configure) => Some(
            Request::ConfigureWindow {
                window: configure.window,
                value_list: value_list(configure),
            },
        ),
        Event::CirculateRequest { window, place } => Some(
            Request::CirculateWindow { window: *window, direction: circulate_direction(*place) },
        ),
        Event::UnmapNotify { .. } => None,
        Event::Other => None,
    }
}

impl Adapter {
    /// Starts the adapter on the root window `root`: returns it with the
    /// request that registers it as the window manager, which selects
    /// substructure notification and redirection on the root.
    pub fn start(root: u32) -> (out: (Adapter, Request))
        ensures
            out.0 == (Adapter { root, phase: Phase::Registering }),
            out.1 == (Request::ChangeWindowAttributes {
                window: root,
                event_mask: SUBSTRUCTURE_NOTIFY | SUBSTRUCTURE_REDIRECT,
            }),
            out.1 == (Request::ChangeWindowAttributes {
                window: root,
                event_mask: 0x0018_0000u32,
            }),
    {
        assert(0x0018_0000u32 == 0x0008_0000u32 | 0x0010_0000u32) by (bit_vector);
        (
            Adapter { root, phase: Phase::Registering },
            Request::ChangeWindowAttributes {
                window: root,
                event_mask: SUBSTRUCTURE_NOTIFY | SUBSTRUCTURE_REDIRECT,
            },
        )
    }

    /// Takes the display server's answer to the registration. A refusal,
    /// which means that another window manager is running, is returned as
    /// an error and ends the adapter; an answer that comes in any phase but
    /// the first changes nothing.
    pub fn registered(&mut self, outcome: Result<(), Failure>) -> (out: Result<(), Error>)
        ensures
            final(self).root == old(self).root,
            match outcome {
                Ok(_) => out is Ok,
                Err(failure) => out == Err::<(), Error>(Error::Xcb(failure)),
            },
            final(self).phase == if old(self).phase != Phase::Registering {
                old(self).phase
            } else if outcome is Ok {
                Phase::Registered
            } else {
                Phase::Refused
            },
    {
        match outcome {
            Ok(()) => {
                if self.phase == Phase::Registering {
                    self.phase = Phase::Registered;
                }
                Ok(())
            },
            Err(failure) => {
                if self.phase == Phase::Registering {
                    self.phase = Phase::Refused;
                }
                Err(Error::Xcb(failure))
            },
        }
    }

    /// Returns the request that answers `event`. Only a registered adapter
    /// answers: before the registration is granted, and after it was
    /// refused, no request is made.
    pub fn dispatch(&self, event: &Event) -> (request: Option<Request>)
        ensures
            self.phase == Phase::Registered ==> answers(*event, request),
            self.phase != Phase::Registered ==> request is None,
    {
        if self.phase == Phase::Registered {
            respond(event)
        } else {
            None
        }
    }
}

} // verus!
