use xwm_selection::x11::send_selection_notify_resp;
use xwm_selection::x11::SelectionNotifyEvent;
use xwm_selection::x11::SelectionRequestEvent;
use xwm_selection::x11::SendEvent;

fn request() -> SelectionRequestEvent {
    SelectionRequestEvent {
        response_type: 30,
        sequence: 17,
        time: 5000,
        owner: 70,
        requestor: 71,
        selection: 72,
        target: 73,
        property: 74,
    }
}

fn answer(property: u32) -> SendEvent {
    SendEvent {
        propagate: false,
        destination: 71,
        event_mask: 0,
        event: SelectionNotifyEvent {
            response_type: 31,
            sequence: 0,
            time: 5000,
            requestor: 71,
            selection: 72,
            target: 73,
            property,
        },
    }
}

#[test]
fn converted_selection_is_answered_with_its_property() {
    assert_eq!(send_selection_notify_resp(&request(), true), answer(74));
}

#[test]
fn refused_request_is_answered_without_property() {
    assert_eq!(send_selection_notify_resp(&request(), false), answer(0));
}
