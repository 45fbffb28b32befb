use aquariwm::display_server::{
    circulate_direction, respond, value_list, Adapter, Circulate, ConfigWindow,
    ConfigureRequest, Error, Event, Failure, Phase, Place, Request, StackMode, NAME,
    SUBSTRUCTURE_NOTIFY, SUBSTRUCTURE_REDIRECT,
};

fn configure(value_mask: u16) -> ConfigureRequest {
    ConfigureRequest {
        window: 42,
        value_mask,
        x: -5,
        y: 6,
        width: 70,
        height: 80,
        border_width: 2,
        sibling: 99,
        stack_mode: StackMode::Below,
    }
}

#[test]
fn the_adapter_has_its_name() {
    assert_eq!(NAME, "AquariWM (X11)");
}

#[test]
fn start_asks_for_substructure_notify_and_redirect_on_the_root() {
    let (adapter, request) = Adapter::start(7);
    assert_eq!(adapter, Adapter { root: 7, phase: Phase::Registering });
    assert_eq!(request, Request::ChangeWindowAttributes { window: 7, event_mask: 0x0018_0000 });
    assert_eq!(SUBSTRUCTURE_NOTIFY | SUBSTRUCTURE_REDIRECT, 0x0018_0000);
    assert_eq!(SUBSTRUCTURE_NOTIFY, 1 << 19);
    assert_eq!(SUBSTRUCTURE_REDIRECT, 1 << 20);
}

#[test]
fn a_refused_registration_is_an_error_and_nothing_is_sent_after_it() {
    let (mut adapter, _) = Adapter::start(7);
    assert_eq!(adapter.registered(Err(Failure::Protocol)), Err(Error::Xcb(Failure::Protocol)));
    assert_eq!(adapter.phase, Phase::Refused);
    assert_eq!(adapter.dispatch(&Event::MapRequest { window: 3 }), None);
    assert_eq!(adapter.dispatch(&Event::ConfigureRequest(configure(0x7f))), None);
    assert_eq!(
        adapter.dispatch(&Event::CirculateRequest { window: 3, place: Place::OnTop }),
        None
    );
    assert_eq!(adapter.registered(Ok(())), Ok(()));
    assert_eq!(adapter.phase, Phase::Refused);
}

#[test]
fn nothing_is_sent_before_the_registration_is_granted() {
    let (adapter, _) = Adapter::start(7);
    assert_eq!(adapter.dispatch(&Event::MapRequest { window: 3 }), None);
}

#[test]
fn a_registered_adapter_grants_map_requests() {
    let (mut adapter, _) = Adapter::start(7);
    assert_eq!(adapter.registered(Ok(())), Ok(()));
    assert_eq!(adapter.phase, Phase::Registered);
    assert_eq!(adapter.root, 7);
    assert_eq!(
        adapter.dispatch(&Event::MapRequest { window: 3 }),
        Some(Request::MapWindow { window: 3 })
    );
    assert_eq!(adapter.dispatch(&Event::UnmapNotify { window: 3 }), None);
    assert_eq!(adapter.dispatch(&Event::Other), None);
}

#[test]
fn a_connection_failure_is_an_error_too() {
    let (mut adapter, _) = Adapter::start(1);
    assert_eq!(
        adapter.registered(Err(Failure::Connection)),
        Err(Error::Xcb(Failure::Connection))
    );
    assert_eq!(adapter.phase, Phase::Refused);
}

#[test]
fn respond_passes_configure_requests_on() {
    assert_eq!(
        respond(&Event::ConfigureRequest(configure(0x0c))),
        Some(Request::ConfigureWindow {
            window: 42,
            value_list: vec![ConfigWindow::Width(70), ConfigWindow::Height(80)],
        })
    );
}

#[test]
fn respond_turns_places_into_directions() {
    assert_eq!(
        respond(&Event::CirculateRequest { window: 5, place: Place::OnTop }),
        Some(Request::CirculateWindow { window: 5, direction: Circulate::RaiseLowest })
    );
    assert_eq!(
        respond(&Event::CirculateRequest { window: 5, place: Place::OnBottom }),
        Some(Request::CirculateWindow { window: 5, direction: Circulate::LowerHighest })
    );
    assert_eq!(circulate_direction(Place::OnTop), Circulate::RaiseLowest);
    assert_eq!(circulate_direction(Place::OnBottom), Circulate::LowerHighest);
}

#[test]
fn value_list_holds_what_the_mask_names_in_the_order_of_the_bits() {
    assert_eq!(value_list(&configure(0)), Vec::new());
    assert_eq!(
        value_list(&configure(0x7f)),
        vec![
            ConfigWindow::X(-5),
            ConfigWindow::Y(6),
            ConfigWindow::Width(70),
            ConfigWindow::Height(80),
            ConfigWindow::BorderWidth(2),
            ConfigWindow::Sibling(99),
            ConfigWindow::StackMode(StackMode::Below),
        ]
    );
    assert_eq!(
        value_list(&configure(0x41)),
        vec![ConfigWindow::X(-5), ConfigWindow::StackMode(StackMode::Below)]
    );
    assert_eq!(value_list(&configure(0xff80)), Vec::new());
}
