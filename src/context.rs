use vstd::prelude::*;

use crate::error::{from_libusb, kind_of_code, Error};
use crate::event::{event_of_code, HotPlugEvent, LIBUSB_HOTPLUG_EVENT_DEVICE_ARRIVED};

verus! {

/// Native log level: nothing is printed.
pub const LIBUSB_LOG_LEVEL_NONE: i32 = 0;
/// Native log level: errors.
pub const LIBUSB_LOG_LEVEL_ERROR: i32 = 1;
/// Native log level: warnings and errors.
pub const LIBUSB_LOG_LEVEL_WARNING: i32 = 2;
/// Native log level: informational messages too.
pub const LIBUSB_LOG_LEVEL_INFO: i32 = 3;
/// Native log level: debug messages too.
pub const LIBUSB_LOG_LEVEL_DEBUG: i32 = 4;

/// Library logging levels.
#[derive(Debug, Clone, Copy, PartialEq, Eq, Structural)]
pub enum LogLevel {
    /// No messages are printed (default).
    Silent,
    /// Error messages are printed to `stderr`.
    Error,
    /// Warning and error messages are printed to `stderr`.
    Warning,
    /// Informational messages go to `stdout`, warnings and errors to `stderr`.
    Info,
    /// Debug and informational messages go to `stdout`, warnings and errors
    /// to `stderr`.
    Debug,
}

pub open spec fn log_level_code(level: LogLevel) -> i32 {
    match level {
        LogLevel::Silent => LIBUSB_LOG_LEVEL_NONE,
        LogLevel::Error => LIBUSB_LOG_LEVEL_ERROR,
        LogLevel::Warning => LIBUSB_LOG_LEVEL_WARNING,
        LogLevel::Info => LIBUSB_LOG_LEVEL_INFO,
        LogLevel::Debug => LIBUSB_LOG_LEVEL_DEBUG,
    }
}

impl LogLevel {
    /// The native code of the level.
    pub fn as_c_int(&self) -> (r: i32)
        ensures
            r == log_level_code(*self),
    {
        match self {
            LogLevel::Silent => LIBUSB_LOG_LEVEL_NONE,
            LogLevel::Error => LIBUSB_LOG_LEVEL_ERROR,
            LogLevel::Warning => LIBUSB_LOG_LEVEL_WARNING,
            LogLevel::Info => LIBUSB_LOG_LEVEL_INFO,
            LogLevel::Debug => LIBUSB_LOG_LEVEL_DEBUG,
        }
    }
}

/// A hot-plug registration: the key that the native callback carries as its
/// user data, the native registration handle, and whether the native layer
/// has accepted it (a registration is pending while the native call runs,
/// when it may already deliver the enumeration of attached devices).
#[derive(Debug, Clone, Copy, PartialEq, Eq, Structural)]
pub struct Registration {
    pub key: u64,
    pub handle: i32,
    pub active: bool,
}

/// A registered callback with its registration.
pub struct CallbackWrapper<C> {
    pub closure: C,
    pub registration: Registration,
}

/// The position of the registration that carries `key`, if any.
pub open spec fn registration_of(regs: Seq<Registration>, key: u64) -> Option<int> {
    if exists|i: int| 0 <= i < regs.len() && #[trigger] regs[i].key == key {
        Some(choose|i: int| 0 <= i < regs.len() && #[trigger] regs[i].key == key)
    } else {
        None
    }
}

/// No two registrations carry the same key.
pub open spec fn keys_unique(regs: Seq<Registration>) -> bool {
    forall|i: int, j: int|
        0 <= i < regs.len() && 0 <= j < regs.len() && i != j ==> #[trigger] regs[i].key
            != #[trigger] regs[j].key
}

/// Where a native hot-plug notification for `key` with event `code` goes:
/// to the registration that carries the key, with the decoded event. An
/// unknown key or an unknown event code goes nowhere.
pub open spec fn dispatch_spec(regs: Seq<Registration>, key: u64, code: int) -> Option<(int, HotPlugEvent)> {
    match (event_of_code(code), registration_of(regs, key)) {
        (Some(e), Some(i)) => Some((i, e)),
        _ => None,
    }
}

proof fn lemma_registration_at(regs: Seq<Registration>, key: u64, i: int)
    requires
        keys_unique(regs),
        0 <= i < regs.len(),
        regs[i].key == key,
    ensures
        registration_of(regs, key) == Some(i),
{
    let j = choose|j: int| 0 <= j < regs.len() && #[trigger] regs[j].key == key;
    assert(regs[j].key == key);
}

/// The session: the callback registrations that it owns, and a guard that
/// keeps the event pump from being entered again from a callback.
pub struct Context<C> {
    cbs: Vec<CallbackWrapper<C>>,
    next_key: u64,
    pumping: bool,
}

impl<C> Context<C> {
    /// The registrations, in the order in which they were made.
    pub closed spec fn regs(&self) -> Seq<Registration> {
        self.cbs@.map_values(|w: CallbackWrapper<C>| w.registration)
    }

    /// The callbacks, in the order of their registrations.
    pub closed spec fn closures(&self) -> Seq<C> {
        self.cbs@.map_values(|w: CallbackWrapper<C>| w.closure)
    }

    /// Whether the event pump is running.
    pub closed spec fn is_pumping(&self) -> bool {
        self.pumping
    }

    /// Whether every registration key has been handed out.
    pub closed spec fn keys_exhausted(&self) -> bool {
        self.next_key == u64::MAX
    }

    /// Keys grow in registration order and stay below the next key to hand
    /// out, so no two registrations share one.
    pub closed spec fn wf(&self) -> bool {
        &&& forall|i: int, j: int|
            0 <= i < j < self.cbs@.len() ==> #[trigger] self.cbs@[i].registration.key
                < #[trigger] self.cbs@[j].registration.key
        &&& forall|i: int|
            0 <= i < self.cbs@.len() ==> #[trigger] self.cbs@[i].registration.key < self.next_key
    }

    proof fn lemma_wf_unique(&self)
        requires
            self.wf(),
        ensures
            keys_unique(self.regs()),
    {
        assert forall|i: int, j: int|
            0 <= i < self.regs().len() && 0 <= j < self.regs().len() && i != j implies #[trigger] self.regs()[i].key
                != #[trigger] self.regs()[j].key by {
            if i < j {
                assert(self.cbs@[i].registration.key < self.cbs@[j].registration.key);
            } else {
                assert(self.cbs@[j].registration.key < self.cbs@[i].registration.key);
            }
        }
    }

    /// A session over a native instance whose initialisation returned
    /// `init_code`: the error of the code if it is negative, else a session
    /// with no registrations.
    pub fn new(init_code: i32) -> (r: Result<Context<C>, Error>)
        ensures
            init_code < 0 ==> (r matches Err(e) && e == kind_of_code(init_code as int)),
            init_code >= 0 ==> (r matches Ok(c) && c.wf() && c.regs() == Seq::<Registration>::empty()
                && !c.is_pumping() && !c.keys_exhausted()),
    {
        if init_code < 0 {
            return Err(from_libusb(init_code));
        }
        let c = Context { cbs: Vec::new(), next_key: 0, pumping: false };
        assert(c.regs() =~= Seq::<Registration>::empty());
        Ok(c)
    }

    /// Number of registrations.
    pub fn len(&self) -> (r: usize)
        ensures
            r == self.regs().len(),
    {
        self.cbs.len()
    }

    /// The registration at `index`.
    pub fn registration(&self, index: usize) -> (r: Registration)
        requires
            index < self.regs().len(),
        ensures
            r == self.regs()[index as int],
    {
        self.cbs[index].registration
    }

    /// The callback of the registration at `index`.
    pub fn callback(&self, index: usize) -> (r: &C)
        requires
            index < self.regs().len(),
        ensures
            *r == self.closures()[index as int],
    {
        &self.cbs[index].closure
    }

    fn find(&self, key: u64) -> (r: Option<usize>)
        requires
            self.wf(),
        ensures
            r matches Some(i) ==> registration_of(self.regs(), key) == Some(i as int),
            r is None ==> registration_of(self.regs(), key) is None,
    {
        let mut i: usize = 0;
        while i < self.cbs.len()
            invariant
                self.wf(),
                i <= self.cbs@.len(),
                forall|j: int| 0 <= j < i ==> #[trigger] self.regs()[j].key != key,
            decreases self.cbs@.len() - i,
        {
            if self.cbs[i].registration.key == key {
                proof {
                    self.lemma_wf_unique();
                    lemma_registration_at(self.regs(), key, i as int);
                }
                return Some(i);
            }
            i = i + 1;
        }
        None
    }

    /// Stores `closure` as a pending registration and returns the key that
    /// the native callback is to carry. `Overflow`, with nothing stored, once
    /// every key has been handed out.
    pub fn begin_registration(&mut self, closure: C) -> (r: Result<u64, Error>)
        requires
            old(self).wf(),
        ensures
            final(self).wf(),
            final(self).is_pumping() == old(self).is_pumping(),
            old(self).keys_exhausted() ==> r == Err::<u64, Error>(Error::Overflow)
                && final(self).regs() == old(self).regs(),
            !old(self).keys_exhausted() ==> (r matches Ok(k) && registration_of(old(self).regs(), k) is None
                && final(self).regs() == old(self).regs().push(
                (Registration { key: k, handle: 0, active: false }),
            ) && final(self).closures() == old(self).closures().push(closure)),
            old(self).keys_exhausted() ==> final(self).closures() == old(self).closures(),
    {
        if self.next_key == u64::MAX {
            return Err(Error::Overflow);
        }
        let key = self.next_key;
        let registration = Registration { key, handle: 0, active: false };
        self.cbs.push(CallbackWrapper { closure, registration });
        self.next_key = key + 1;
        proof {
            assert(self.regs() =~= old(self).regs().push(registration));
            assert(self.closures() =~= old(self).closures().push(closure));
            assert(forall|i: int| 0 <= i < old(self).regs().len() ==> #[trigger] old(self).regs()[i].key < key);
        }
        Ok(key)
    }

    /// Records the native answer to the registration that carries `key`:
    /// a negative `code` withdraws it and is returned as its error; any
    /// other makes it active under the native `handle`. `NotFound` if no
    /// registration carries the key.
    pub fn finish_registration(&mut self, key: u64, code: i32, handle: i32) -> (r: Result<(), Error>)
        requires
            old(self).wf(),
        ensures
            final(self).wf(),
            final(self).is_pumping() == old(self).is_pumping(),
            final(self).keys_exhausted() == old(self).keys_exhausted(),
            registration_of(old(self).regs(), key) is None ==> r == Err::<(), Error>(Error::NotFound)
                && final(self).regs() == old(self).regs() && final(self).closures() == old(
                self,
            ).closures(),
            registration_of(old(self).regs(), key) matches Some(i) ==> {
                &&& code < 0 ==> r == Err::<(), Error>(kind_of_code(code as int))
                    && final(self).regs() == old(self).regs().remove(i) && final(self).closures()
                    == old(self).closures().remove(i)
                &&& code >= 0 ==> r == Ok::<(), Error>(()) && final(self).closures() == old(
                    self,
                ).closures()
                    && final(self).regs() == old(self).regs().update(
                    i,
                    (Registration { key, handle, active: true }),
                )
            },
    {
        match self.find(key) {
            None => Err(Error::NotFound),
            Some(i) => {
                if code < 0 {
                    let _removed = self.cbs.remove(i);
                    proof {
                        assert(self.regs() =~= old(self).regs().remove(i as int));
                        assert(self.closures() =~= old(self).closures().remove(i as int));
                        assert forall|a: int, b: int|
                            0 <= a < b < self.cbs@.len() implies #[trigger] self.cbs@[a].registration.key
                                < #[trigger] self.cbs@[b].registration.key by {
                            let a0 = if a < i { a } else { a + 1 };
                            let b0 = if b < i { b } else { b + 1 };
                            assert(old(self).cbs@[a0].registration.key < old(self).cbs@[b0].registration.key);
                        }
                        assert forall|a: int|
                            0 <= a < self.cbs@.len() implies #[trigger] self.cbs@[a].registration.key
                                < self.next_key by {
                            let a0 = if a < i { a } else { a + 1 };
                            assert(old(self).cbs@[a0].registration.key < self.next_key);
                        }
                    }
                    Err(from_libusb(code))
                } else {
                    let registration = Registration { key, handle, active: true };
                    let mut w = self.cbs.remove(i);
                    w.registration = registration;
                    self.cbs.insert(i, w);
                    proof {
                        assert(self.regs() =~= old(self).regs().update(i as int, registration));
                        assert(self.closures() =~= old(self).closures());
                        assert(forall|a: int|
                            0 <= a < self.cbs@.len() ==> #[trigger] self.cbs@[a].registration.key
                                == old(self).cbs@[a].registration.key);
                    }
                    Ok(())
                }
            },
        }
    }

    /// Where a native hot-plug notification goes: the position of the
    /// registration that carries `key`, with the decoded event; `None` for
    /// an unknown key or an unknown event code, which are dropped.
    pub fn dispatch(&self, key: u64, code: i32) -> (r: Option<(usize, HotPlugEvent)>)
        requires
            self.wf(),
        ensures
            r is None <==> dispatch_spec(self.regs(), key, code as int) is None,
            r matches Some((i, e)) ==> dispatch_spec(self.regs(), key, code as int) == Some(
                (i as int, e),
            ),
    {
        let event = HotPlugEvent::from_i32(code);
        match event {
            None => None,
            Some(e) => match self.find(key) {
                None => None,
                Some(i) => Some((i, e)),
            },
        }
    }

    /// Enters the event pump; `Busy`, with nothing changed, if it is
    /// already running (a callback may not pump events).
    pub fn begin_pump(&mut self) -> (r: Result<(), Error>)
        requires
            old(self).wf(),
        ensures
            final(self).wf(),
            final(self).regs() == old(self).regs(),
            final(self).keys_exhausted() == old(self).keys_exhausted(),
            old(self).is_pumping() ==> r == Err::<(), Error>(Error::Busy) && final(self).is_pumping(),
            !old(self).is_pumping() ==> r == Ok::<(), Error>(()) && final(self).is_pumping(),
    {
        if self.pumping {
            return Err(Error::Busy);
        }
        self.pumping = true;
        Ok(())
    }

    /// Leaves the event pump.
    pub fn end_pump(&mut self)
        requires
            old(self).wf(),
        ensures
            final(self).wf(),
            final(self).regs() == old(self).regs(),
            final(self).keys_exhausted() == old(self).keys_exhausted(),
            !final(self).is_pumping(),
    {
        self.pumping = false;
    }
}

/// Each arrival that the native layer replays for a registration while it
/// is being made (or at any time after) reaches that registration's
/// callback as `Arrived`: `n` replays give exactly `n` arrivals there, and
/// a code that is no event gives none.
pub proof fn lemma_replayed_arrivals(regs: Seq<Registration>, i: int, codes: Seq<i32>)
    requires
        keys_unique(regs),
        0 <= i < regs.len(),
    ensures
        forall|k: int|
            0 <= k < codes.len() && codes[k] == LIBUSB_HOTPLUG_EVENT_DEVICE_ARRIVED ==> #[trigger] dispatch_spec(
                regs,
                regs[i].key,
                codes[k] as int,
            ) == Some((i, HotPlugEvent::Arrived)),
        forall|k: int|
            0 <= k < codes.len() && event_of_code(codes[k] as int) is None ==> #[trigger] dispatch_spec(
                regs,
                regs[i].key,
                codes[k] as int,
            ) is None,
{
    lemma_registration_at(regs, regs[i].key, i);
}

} // verus!
