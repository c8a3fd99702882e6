use std::cell::RefCell;
use tinymemory::events::{
    clear_event_sink, event_sink, publish, set_event_sink, EventSinkSlot, MemoryEventSink,
};

struct Recording(RefCell<Vec<String>>);

impl MemoryEventSink<String> for Recording {
    fn received(&self, event: String) -> bool {
        self.0.borrow().contains(&event)
    }

    fn publish(&self, event: String) {
        self.0.borrow_mut().push(event);
    }
}

#[test]
fn events_before_a_sink_is_installed_are_dropped() {
    let slot: EventSinkSlot<Recording> = EventSinkSlot::new();
    assert!(event_sink(&slot).is_none());
    assert!(!publish(&slot, "early".to_string()));
}

#[test]
fn an_installed_sink_receives_events_until_cleared() {
    let mut slot = EventSinkSlot::new();
    set_event_sink(&mut slot, Recording(RefCell::new(Vec::new())));
    assert!(publish(&slot, "first".to_string()));
    assert!(publish(&slot, "second".to_string()));
    assert!(event_sink(&slot).unwrap().received("first".to_string()));
    assert_eq!(
        *event_sink(&slot).expect("installed").0.borrow(),
        vec!["first".to_string(), "second".to_string()]
    );
    clear_event_sink(&mut slot);
    assert!(event_sink(&slot).is_none());
    assert!(!publish(&slot, "late".to_string()));
}

#[test]
fn installing_again_replaces_the_sink() {
    let mut slot = EventSinkSlot::new();
    set_event_sink(&mut slot, Recording(RefCell::new(vec!["old".to_string()])));
    set_event_sink(&mut slot, Recording(RefCell::new(Vec::new())));
    assert!(event_sink(&slot).unwrap().0.borrow().is_empty());
}
