use vstd::prelude::*;

use crate::registry::HookRegistry;
use crate::share::{MapView, RegionStore};

verus! {

/// The hook code that marks a notification the callback must act on.
pub const HC_ACTION: i32 = 0;

/// The pointer-move message kind.
pub const WM_MOUSEMOVE: u32 = 0x0200;

/// The base of the application-reserved message range.
pub const WM_USER: u32 = 0x0400;

/// The private message that carries a forwarded pointer position to the
/// target window.
pub const WM_HOOK_MOUSE_POS: u32 = WM_USER + 42;

/// The raw payload the platform hands a low-level pointer hook: the screen
/// coordinates of the pointer and the hook metadata riding along with them.
#[derive(Clone, Copy, Debug, PartialEq, Eq, Structural)]
pub struct PointerEvent {
    pub x: i32,
    pub y: i32,
    pub mouse_data: u32,
    pub flags: u32,
    pub time: u32,
    pub extra_info: u64,
}

/// One forwarding: the private position message, sent synchronously to the
/// target window with the raw event payload. The real message carries a
/// reference valid only for the duration of the call; the model carries the
/// payload by value.
#[derive(Clone, Copy, Debug, PartialEq, Eq, Structural)]
pub struct ForwardedMessage {
    pub window: u64,
    pub message: u32,
    pub event: PointerEvent,
}

/// What one callback invocation did.
#[derive(Clone, Copy, Debug)]
pub struct CallbackOutcome {
    /// The message sent to the target window, if the event qualified and a
    /// non-null target was stored.
    pub forwarded: Option<ForwardedMessage>,
    /// Whether the event goes on to the next hook in the platform's chain.
    /// The callback never short-circuits the chain, so this is always true.
    pub pass_to_next_hook: bool,
}

/// An event is forwarded only if its code marks an actionable notification
/// and its message kind is pointer-move.
pub open spec fn spec_should_forward(code: i32, message_kind: u32) -> bool {
    code == HC_ACTION && message_kind == WM_MOUSEMOVE
}

/// The forwarding rule on the raw values the dispatch context sees.
pub fn should_forward(code: i32, message_kind: u32) -> (b: bool)
    ensures
        b == spec_should_forward(code, message_kind),
{
    code == HC_ACTION && message_kind == WM_MOUSEMOVE
}

/// The message one callback invocation forwards, if any: the event must
/// qualify, the named segment must be mappable, and the stored target
/// window must be non-null.
pub open spec fn spec_callback_forward(
    store: RegionStore,
    name: Seq<char>,
    code: i32,
    message_kind: u32,
    event: PointerEvent,
) -> Option<ForwardedMessage> {
    if spec_should_forward(code, message_kind) && store.has_region(name) && store.record_of(
        name,
    ).target_window != 0 {
        Some(
            ForwardedMessage {
                window: store.record_of(name).target_window,
                message: WM_HOOK_MOUSE_POS,
                event,
            },
        )
    } else {
        None
    }
}

/// The hook procedure the platform invokes on every pointer notification.
/// On a qualifying event it opens a view, reads the target window and, when
/// a non-null one is stored, sends it the private position message; a view
/// that cannot be opened only skips the forwarding. Whatever happened, the
/// event passes to the next hook in the chain: a broken shared-memory link
/// degrades the feature, never global pointer input.
pub fn hook_callback(
    store: &RegionStore,
    name: &String,
    code: i32,
    message_kind: u32,
    event: PointerEvent,
) -> (out: CallbackOutcome)
    ensures
        out.forwarded == spec_callback_forward(*store, name@, code, message_kind, event),
        out.pass_to_next_hook,
{
    let forwarded: Option<ForwardedMessage> = if should_forward(code, message_kind) {
        match MapView::open(store, name) {
            Ok(view) => {
                if view.record.target_window != 0 {
                    Some(
                        ForwardedMessage {
                            window: view.record.target_window,
                            message: WM_HOOK_MOUSE_POS,
                            event,
                        },
                    )
                } else {
                    None
                }
            },
            Err(_) => None,
        }
    } else {
        None
    };
    CallbackOutcome { forwarded, pass_to_next_hook: true }
}

/// The platform's dispatch of one pointer notification: the callback runs
/// once for every live hook registration, oldest first, and every
/// invocation passes the event on down the chain, so the walk always covers
/// the whole chain. The messages the target window received are returned in
/// dispatch order: one per live registration when the event qualifies and a
/// target is stored, none otherwise — in particular none when no hook
/// registration is live.
pub fn dispatch_pointer_event(
    registry: &HookRegistry,
    store: &RegionStore,
    name: &String,
    code: i32,
    message_kind: u32,
    event: PointerEvent,
) -> (messages: Vec<ForwardedMessage>)
    ensures
        spec_callback_forward(*store, name@, code, message_kind, event) is None ==> messages@
            == Seq::<ForwardedMessage>::empty(),
        spec_callback_forward(*store, name@, code, message_kind, event) matches Some(m)
            ==> messages@ == Seq::new(registry.hooks@.len(), |k: int| m),
{
    let ghost fwd = spec_callback_forward(*store, name@, code, message_kind, event);
    let mut messages: Vec<ForwardedMessage> = Vec::new();
    let n = registry.hooks.len();
    let mut i: usize = 0;
    while i < n
        invariant
            i <= n,
            n == registry.hooks@.len(),
            fwd == spec_callback_forward(*store, name@, code, message_kind, event),
            fwd is None ==> messages@ == Seq::<ForwardedMessage>::empty(),
            fwd matches Some(m) ==> messages@ == Seq::new(i as nat, |k: int| m),
        decreases n - i,
    {
        let out = hook_callback(store, name, code, message_kind, event);
        match out.forwarded {
            Some(msg) => {
                messages.push(msg);
                proof {
                    let m = fwd->Some_0;
                    assert(messages@ =~= Seq::new((i + 1) as nat, |k: int| m));
                }
            },
            None => {},
        }
        i = i + 1;
    }
    messages
}

} // verus!
