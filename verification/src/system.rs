use vstd::prelude::*;

verus! {

/// A source of events, known by the address of Allegro's
/// `ALLEGRO_EVENT_SOURCE` that stands behind it.
#[derive(Clone, Copy, Debug, PartialEq, Eq, Structural)]
pub struct EventSource {
    handle: usize,
}

impl EventSource {
    /// The address of the Allegro event source.
    pub closed spec fn spec_handle(self) -> usize {
        self.handle
    }

    /// Refers to the Allegro event source at `handle`.
    pub fn new(handle: usize) -> (r: EventSource)
        ensures
            r.spec_handle() == handle,
    {
        EventSource { handle }
    }

    /// The address of the Allegro event source.
    pub fn handle(&self) -> (r: usize)
        ensures
            r == self.spec_handle(),
    {
        self.handle
    }
}

/// The per-thread state of the binding: the input event sources it has
/// already looked up.
pub struct Core {
    keyboard_event_source: Option<EventSource>,
    mouse_event_source: Option<EventSource>,
    joystick_event_source: Option<EventSource>,
}

/// What looking up a cached event source yields: the new cache content,
/// which is also the answer. `installed` is what the device reports and
/// `fetched` what Allegro hands out, both asked for only on a cache miss.
pub open spec fn resolved_source(
    cached: Option<EventSource>,
    installed: bool,
    fetched: EventSource,
) -> Option<EventSource> {
    match cached {
        Some(e) => Some(e),
        None => if installed {
            Some(fetched)
        } else {
            None
        },
    }
}

/// A cache miss asks whether the device is installed and, only if so,
/// fetches the source; a hit asks nothing. The result is the new cache.
fn resolve_event_source<I: FnOnce() -> bool, F: FnOnce() -> EventSource>(
    slot: &mut Option<EventSource>,
    is_installed: I,
    fetch: F,
) -> (r: Option<EventSource>)
    requires
        (*old(slot)) is None ==> call_requires(is_installed, ()),
        (*old(slot)) is None ==> forall|installed: bool|
            #[trigger] call_ensures(is_installed, (), installed) && installed ==> call_requires(
                fetch,
                (),
            ),
    ensures
        r == *final(slot),
        (*old(slot)) is Some ==> r == *old(slot),
        (*old(slot)) is None ==> exists|installed: bool, fetched: EventSource|
            call_ensures(is_installed, (), installed) && (installed ==> call_ensures(
                fetch,
                (),
                fetched,
            )) && r == resolved_source(*old(slot), installed, fetched),
        (*old(slot)) is None ==> exists|installed: bool, fetched: EventSource|
            call_ensures(is_installed, (), installed) && (installed ==> call_ensures(
                fetch,
                (),
                fetched,
            ) && r == Some(fetched)) && (!installed ==> r is None),
{
    if slot.is_none() {
        let installed = is_installed();
        if installed {
            let fetched = fetch();
            *slot = Some(fetched);
            assert(*slot == resolved_source(None, installed, fetched));
        } else {
            assert(*slot == resolved_source(None, installed, EventSource { handle: 0 }));
        }
    }
    *slot
}

impl Core {
    /// The cached keyboard event source.
    pub closed spec fn spec_keyboard_event_source(self) -> Option<EventSource> {
        self.keyboard_event_source
    }

    /// The cached mouse event source.
    pub closed spec fn spec_mouse_event_source(self) -> Option<EventSource> {
        self.mouse_event_source
    }

    /// The cached joystick event source.
    pub closed spec fn spec_joystick_event_source(self) -> Option<EventSource> {
        self.joystick_event_source
    }

    /// A fresh state, with no event source looked up yet.
    pub fn new() -> (r: Core)
        ensures
            r.spec_keyboard_event_source() is None,
            r.spec_mouse_event_source() is None,
            r.spec_joystick_event_source() is None,
    {
        Core { keyboard_event_source: None, mouse_event_source: None, joystick_event_source: None }
    }

    /// The cached keyboard event source, if one was looked up.
    pub fn keyboard_event_source(&self) -> (r: Option<&EventSource>)
        ensures
            r is Some <==> self.spec_keyboard_event_source() is Some,
            r matches Some(e) ==> Some(*e) == self.spec_keyboard_event_source(),
    {
        self.keyboard_event_source.as_ref()
    }

    /// The cached mouse event source, if one was looked up.
    pub fn mouse_event_source(&self) -> (r: Option<&EventSource>)
        ensures
            r is Some <==> self.spec_mouse_event_source() is Some,
            r matches Some(e) ==> Some(*e) == self.spec_mouse_event_source(),
    {
        self.mouse_event_source.as_ref()
    }

    /// The cached joystick event source, if one was looked up.
    pub fn joystick_event_source(&self) -> (r: Option<&EventSource>)
        ensures
            r is Some <==> self.spec_joystick_event_source() is Some,
            r matches Some(e) ==> Some(*e) == self.spec_joystick_event_source(),
    {
        self.joystick_event_source.as_ref()
    }

    /// The keyboard event source: looked up through `fetch` the first time it
    /// is asked for while `is_installed` reports the keyboard installed, and
    /// taken from the cache after that. `None` when the keyboard is not
    /// installed and nothing is cached.
    ///
    /// `is_installed` may be called only on an empty cache, and `fetch` only
    /// after `is_installed` has answered `true`: the `requires` grants no
    /// other call.
    pub fn get_keyboard_event_source<I: FnOnce() -> bool, F: FnOnce() -> EventSource>(
        &mut self,
        is_installed: I,
        fetch: F,
    ) -> (r: Option<EventSource>)
        requires
            old(self).spec_keyboard_event_source() is None ==> call_requires(is_installed, ()),
            old(self).spec_keyboard_event_source() is None ==> forall|installed: bool|
                #[trigger] call_ensures(is_installed, (), installed) && installed
                    ==> call_requires(fetch, ()),
        ensures
            r == final(self).spec_keyboard_event_source(),
            final(self).spec_mouse_event_source() == old(self).spec_mouse_event_source(),
            final(self).spec_joystick_event_source() == old(self).spec_joystick_event_source(),
            old(self).spec_keyboard_event_source() is Some ==> r
                == old(self).spec_keyboard_event_source(),
            old(self).spec_keyboard_event_source() is None ==> exists|
                installed: bool,
                fetched: EventSource,
            |
                call_ensures(is_installed, (), installed) && (installed ==> call_ensures(
                    fetch,
                    (),
                    fetched,
                )) && r == resolved_source(None, installed, fetched),
            old(self).spec_keyboard_event_source() is None ==> exists|
                installed: bool,
                fetched: EventSource,
            |
                call_ensures(is_installed, (), installed) && (installed ==> call_ensures(
                    fetch,
                    (),
                    fetched,
                ) && r == Some(fetched)) && (!installed ==> r is None),
    {
        resolve_event_source(&mut self.keyboard_event_source, is_installed, fetch)
    }

    /// The mouse event source, looked up and cached as the keyboard's is.
    pub fn get_mouse_event_source<I: FnOnce() -> bool, F: FnOnce() -> EventSource>(
        &mut self,
        is_installed: I,
        fetch: F,
    ) -> (r: Option<EventSource>)
        requires
            old(self).spec_mouse_event_source() is None ==> call_requires(is_installed, ()),
            old(self).spec_mouse_event_source() is None ==> forall|installed: bool|
                #[trigger] call_ensures(is_installed, (), installed) && installed
                    ==> call_requires(fetch, ()),
        ensures
            r == final(self).spec_mouse_event_source(),
            final(self).spec_keyboard_event_source() == old(self).spec_keyboard_event_source(),
            final(self).spec_joystick_event_source() == old(self).spec_joystick_event_source(),
            old(self).spec_mouse_event_source() is Some ==> r
                == old(self).spec_mouse_event_source(),
            old(self).spec_mouse_event_source() is None ==> exists|
                installed: bool,
                fetched: EventSource,
            |
                call_ensures(is_installed, (), installed) && (installed ==> call_ensures(
                    fetch,
                    (),
                    fetched,
                )) && r == resolved_source(None, installed, fetched),
            old(self).spec_mouse_event_source() is None ==> exists|
                installed: bool,
                fetched: EventSource,
            |
                call_ensures(is_installed, (), installed) && (installed ==> call_ensures(
                    fetch,
                    (),
                    fetched,
                ) && r == Some(fetched)) && (!installed ==> r is None),
    {
        resolve_event_source(&mut self.mouse_event_source, is_installed, fetch)
    }

    /// The joystick event source, looked up and cached as the keyboard's is.
    pub fn get_joystick_event_source<I: FnOnce() -> bool, F: FnOnce() -> EventSource>(
        &mut self,
        is_installed: I,
        fetch: F,
    ) -> (r: Option<EventSource>)
        requires
            old(self).spec_joystick_event_source() is None ==> call_requires(is_installed, ()),
            old(self).spec_joystick_event_source() is None ==> forall|installed: bool|
                #[trigger] call_ensures(is_installed, (), installed) && installed
                    ==> call_requires(fetch, ()),
        ensures
            r == final(self).spec_joystick_event_source(),
            final(self).spec_keyboard_event_source() == old(self).spec_keyboard_event_source(),
            final(self).spec_mouse_event_source() == old(self).spec_mouse_event_source(),
            old(self).spec_joystick_event_source() is Some ==> r
                == old(self).spec_joystick_event_source(),
            old(self).spec_joystick_event_source() is None ==> exists|
                installed: bool,
                fetched: EventSource,
            |
                call_ensures(is_installed, (), installed) && (installed ==> call_ensures(
                    fetch,
                    (),
                    fetched,
                )) && r == resolved_source(None, installed, fetched),
            old(self).spec_joystick_event_source() is None ==> exists|
                installed: bool,
                fetched: EventSource,
            |
                call_ensures(is_installed, (), installed) && (installed ==> call_ensures(
                    fetch,
                    (),
                    fetched,
                ) && r == Some(fetched)) && (!installed ==> r is None),
    {
        resolve_event_source(&mut self.joystick_event_source, is_installed, fetch)
    }
}

/// The screen area of a video adapter, as `al_get_monitor_info` fills in.
#[derive(Clone, Copy, Debug, PartialEq, Eq, Structural)]
pub struct MonitorInfo {
    pub x1: i32,
    pub y1: i32,
    pub x2: i32,
    pub y2: i32,
}

/// The answer of `get_monitor_info`, from the status of `al_get_monitor_info`
/// and the area it filled in: the corners when the status is non-zero, an
/// error otherwise.
pub fn monitor_info_result(status: i32, info: MonitorInfo) -> (r: Result<(i32, i32, i32, i32), ()>)
    ensures
        r is Err <==> status == 0,
        status != 0 ==> r == Ok::<(i32, i32, i32, i32), ()>((info.x1, info.y1, info.x2, info.y2)),
{
    if status != 0 {
        Ok((info.x1, info.y1, info.x2, info.y2))
    } else {
        Err(())
    }
}

/// A shader as `use_shader` sees it: the address of its `ALLEGRO_SHADER`
/// and whether it was built successfully.
#[derive(Clone, Copy, Debug, PartialEq, Eq, Structural)]
pub struct ShaderRef {
    pub handle: usize,
    pub valid: bool,
}

/// Makes `shader` the shader of the current target, or stops using a
/// shader when it is `None`; `use_fn` stands for `al_use_shader`, given the
/// shader's address (0 for none) and returning its status.
///
/// Stopping always succeeds; a shader that was not built is refused without
/// calling Allegro; otherwise the status decides.
pub fn use_shader<F: FnOnce(usize) -> i32>(shader: Option<ShaderRef>, use_fn: F) -> (r: Result<(), ()>)
    requires
        shader matches Some(s) ==> (s.valid ==> call_requires(use_fn, (s.handle,))),
        shader is None ==> call_requires(use_fn, (0usize,)),
    ensures
        shader is None ==> r is Ok && exists|status: i32| call_ensures(use_fn, (0usize,), status),
        shader matches Some(s) ==> (!s.valid ==> r is Err),
        shader matches Some(s) ==> (s.valid ==> exists|status: i32|
            call_ensures(use_fn, (s.handle,), status) && (r is Ok <==> status != 0)),
{
    match shader {
        Some(s) => {
            if s.valid {
                let status = use_fn(s.handle);
                if status != 0 {
                    Ok(())
                } else {
                    Err(())
                }
            } else {
                Err(())
            }
        },
        None => {
            let _ = use_fn(0);
            Ok(())
        },
    }
}

/// Once a lookup has produced a source, every later lookup gives that same
/// source, whatever the device then reports and Allegro would hand out.
pub proof fn lemma_event_source_stable(
    cached: Option<EventSource>,
    installed1: bool,
    fetched1: EventSource,
    installed2: bool,
    fetched2: EventSource,
)
    requires
        resolved_source(cached, installed1, fetched1) is Some,
    ensures
        resolved_source(resolved_source(cached, installed1, fetched1), installed2, fetched2)
            == resolved_source(cached, installed1, fetched1),
{
}

/// A lookup on an empty cache while the device is installed gives, and
/// caches, exactly the source that was fetched, whatever it is.
pub proof fn lemma_event_source_fetched(fetched: EventSource)
    ensures
        resolved_source(None, true, fetched) == Some(fetched),
{
}

/// A lookup on an empty cache while the device is not installed leaves the
/// cache empty, so a later lookup asks again.
pub proof fn lemma_event_source_not_installed(fetched: EventSource)
    ensures
        resolved_source(None, false, fetched) is None,
{
}

} // verus!
