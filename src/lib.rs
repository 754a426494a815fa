//! Relays locally captured keystrokes to a paired remote device.
//!
//! The library holds the decisions of the relay: the key events and their
//! wire encoding, the FIFO of pending keys, the object paths under which an
//! endpoint is addressed, and the per-tick state machine that drains the
//! queue into the selected endpoint. Performing the remote calls is left to
//! the caller, which feeds their outcomes back into the state machine.

mod device;
mod queue;
mod relay;
mod remotekeyboard;

pub use device::{
    device_path, display_names, name_or_empty, Device, CALL_TIMEOUT_MS, DAEMON_INTERFACE,
    DAEMON_PATH, DEVICES_METHOD, DEVICES_ROOT, DEVICE_INTERFACE, HAS_PLUGIN_METHOD, NAME_PROPERTY,
    SERVICE,
};
pub use queue::{drain, enqueue_all, lemma_fifo_order, Queue};
pub use relay::{
    char_key, char_keys, failing_tick, failing_ticks, initial_state, is_printable_ascii,
    lemma_failed_sends_keep_queue, lemma_failing_ticks_retry_head, lemma_no_endpoints_no_session,
    lemma_one_send_per_tick, lemma_run_append, lemma_typed_in_order, listing_view, readiness_view,
    repeated, run, sending_tick_requests, sends, step, typed, typed_all, within_tick, Action,
    Phase, Relay, RelayState, Request, Signal, TransportError,
};
pub use remotekeyboard::{
    keyboard_path, KeyPress, Keys, RemoteKeyboard, SpecialKey, KEYBOARD_INTERFACE,
    KEYBOARD_SUFFIX, NO_SPECIAL_KEY, READY_PROPERTY, SEND_METHOD,
};
