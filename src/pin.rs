//! Typed signal pins: one producer, one consumer, and a latched last value.

use vstd::prelude::*;

verus! {

#[verifier::external_type_specification]
#[verifier::external_body]
#[verifier::reject_recursive_types(T)]
pub struct ExSender<T>(crossbeam_channel::Sender<T>);

#[verifier::external_type_specification]
#[verifier::external_body]
#[verifier::reject_recursive_types(T)]
pub struct ExReceiver<T>(crossbeam_channel::Receiver<T>);

#[verifier::external_type_specification]
#[verifier::external_body]
pub struct ExSelect<'a>(crossbeam_channel::Select<'a>);

/// How many operations have been added to a `Select`.
pub uninterp spec fn select_added(s: crossbeam_channel::Select) -> nat;

/// Relies on crossbeam_channel::Select::new: a selection with no operations.
#[verifier::external_body]
fn select_new<'a>() -> (r: crossbeam_channel::Select<'a>)
    ensures
        select_added(r) == 0,
{
    crossbeam_channel::Select::new()
}

/// Relies on crossbeam_channel::Select::recv: adds a receive operation and
/// returns its index, the number of operations added before it.
#[verifier::external_body]
fn select_recv<'a, T>(s: &mut crossbeam_channel::Select<'a>, r: &'a crossbeam_channel::Receiver<T>) -> (i: usize)
    ensures
        i == select_added(*old(s)),
        select_added(*final(s)) == select_added(*old(s)) + 1,
{
    s.recv(r)
}

/// Relies on crossbeam_channel::Select::ready: blocks until one of the added
/// operations is ready (a value is there or the channel is closed) and
/// returns its index. It panics when nothing was added.
#[verifier::external_body]
fn select_ready(s: &mut crossbeam_channel::Select) -> (i: usize)
    requires
        select_added(*old(s)) > 0,
    ensures
        i < select_added(*old(s)),
        select_added(*final(s)) == select_added(*old(s)),
{
    s.ready()
}

/// Relies on crossbeam_channel::unbounded: the two ends of a fresh channel.
#[verifier::external_body]
fn unbounded_channel<T>() -> (crossbeam_channel::Sender<T>, crossbeam_channel::Receiver<T>) {
    crossbeam_channel::unbounded()
}

/// Relies on crossbeam_channel::Sender::send: queues the value, or reports
/// `false` once the receiving end is gone.
#[verifier::external_body]
fn send_value<T>(s: &crossbeam_channel::Sender<T>, v: T) -> (delivered: bool) {
    s.send(v).is_ok()
}

/// Relies on crossbeam_channel::Receiver::recv: blocks for the next value;
/// `None` once the channel is closed and drained.
#[verifier::external_body]
fn recv_value<T>(r: &crossbeam_channel::Receiver<T>) -> (v: Option<T>) {
    r.recv().ok()
}

/// Relies on crossbeam_channel::Receiver::len: how many values are queued now.
#[verifier::external_body]
fn queued<T>(r: &crossbeam_channel::Receiver<T>) -> (n: usize) {
    r.len()
}

/// Relies on crossbeam_channel::Receiver::try_recv: the next queued value, if
/// one is there, without blocking.
#[verifier::external_body]
fn try_recv_value<T>(r: &crossbeam_channel::Receiver<T>) -> (v: Option<T>) {
    r.try_recv().ok()
}

/// The newest of the values taken from a channel, oldest first.
pub fn newest<T: Copy>(got: &Vec<T>) -> (r: Option<T>)
    ensures
        r == if got@.len() == 0 {
            None
        } else {
            Some(got@.last())
        },
{
    if got.len() == 0 {
        None
    } else {
        Some(got[got.len() - 1])
    }
}

/// A unidirectional channel of values of type `T` (a clock or phase line as
/// `bool`, a data bus as `u8`, an address bus as `u16`) between one producer
/// and one consumer, latching the last value that went through it.
#[verifier::reject_recursive_types(T)]
pub enum Pin<T> {
    Output { value: T, s: crossbeam_channel::Sender<T> },
    Input { value: T, r: crossbeam_channel::Receiver<T> },
    Unconnected(T),
}

impl<T: Copy> Pin<T> {
    /// The latched value.
    pub open spec fn latched(&self) -> T {
        match self {
            Pin::Output { value, .. } => *value,
            Pin::Input { value, .. } => *value,
            Pin::Unconnected(value) => *value,
        }
    }

    /// An unconnected pin latching `initial_value`.
    pub fn new(initial_value: T) -> (r: Pin<T>)
        ensures
            r is Unconnected,
            r.latched() == initial_value,
    {
        Pin::Unconnected(initial_value)
    }

    /// Binds this pin, as producer, to `target`, as consumer. Both keep the
    /// value this pin latched.
    pub fn connect_to(&mut self, target: &mut Pin<T>)
        requires
            *old(self) is Unconnected,
            *old(target) is Unconnected,
        ensures
            *final(self) is Output,
            *final(target) is Input,
            final(self).latched() == old(self).latched(),
            final(target).latched() == old(self).latched(),
    {
        let value = self.value();
        let (s, r) = unbounded_channel();
        *self = Pin::Output { value, s };
        *target = Pin::Input { value, r };
    }

    /// Latches `new_value` and, on a producer, hands it to the consumer. A
    /// consumer that has gone away is no error.
    pub fn update(&mut self, new_value: T)
        requires
            !(*old(self) is Input),
        ensures
            final(self).latched() == new_value,
            *final(self) is Output <==> *old(self) is Output,
            *final(self) is Unconnected <==> *old(self) is Unconnected,
    {
        match self {
            Pin::Output { value, s } => {
                *value = new_value;
                let _ = send_value(s, new_value);
            },
            Pin::Input { .. } => {},
            Pin::Unconnected(value) => {
                *value = new_value;
            },
        }
    }

    /// Blocks until the next value arrives and latches it; once the channel
    /// is closed (nothing received), returns the value last latched.
    pub fn wait(&mut self) -> (r: T)
        requires
            *old(self) is Input,
        ensures
            *final(self) is Input,
            r == final(self).latched(),
    {
        let got = match self {
            Pin::Input { r, .. } => recv_value(r),
            _ => None,
        };
        self.latch(got)
    }

    /// Takes the outcome of a receive on a consumer: a value that arrived is
    /// latched; nothing (a closed channel) keeps the latched value. Returns
    /// the value now latched.
    pub fn latch(&mut self, got: Option<T>) -> (r: T)
        requires
            *old(self) is Input,
        ensures
            *final(self) is Input,
            final(self).latched() == match got {
                Some(v) => v,
                None => old(self).latched(),
            },
            r == final(self).latched(),
    {
        match self {
            Pin::Input { value, .. } => {
                match got {
                    Some(v) => {
                        *value = v;
                    },
                    None => {},
                }
                *value
            },
            Pin::Output { value, .. } => *value,
            Pin::Unconnected(value) => *value,
        }
    }

    /// Without blocking, takes every value queued now and latches the newest,
    /// if there was any.
    pub fn try_recv(&mut self) -> (r: Option<T>)
        requires
            *old(self) is Input,
        ensures
            *final(self) is Input,
            final(self).latched() == match r {
                Some(v) => v,
                None => old(self).latched(),
            },
    {
        match self {
            Pin::Input { value, r } => {
                let n = queued(r);
                let mut got: Vec<T> = Vec::new();
                let mut i: usize = 0;
                while i < n
                    invariant
                        i <= n,
                    decreases n - i,
                {
                    match try_recv_value(r) {
                        Some(v) => {
                            got.push(v);
                        },
                        None => {
                            break;
                        },
                    }
                    i += 1;
                }
                let latest = newest(&got);
                if let Some(v) = latest {
                    *value = v;
                }
                latest
            },
            _ => None,
        }
    }

    /// The latched value, without blocking.
    pub fn value(&self) -> (r: T)
        ensures
            r == self.latched(),
    {
        match self {
            Pin::Output { value, .. } => *value,
            Pin::Input { value, .. } => *value,
            Pin::Unconnected(value) => *value,
        }
    }

    /// Blocks until one of the consumers among `ports` has a value queued or
    /// its channel closed, then takes that value, latches it and returns the
    /// port's index. `None` when no port is a consumer, or when the chosen
    /// channel turned out closed. Ports other than the one returned are left
    /// as they were.
    pub fn wait_any(ports: &mut Vec<Pin<T>>) -> (r: Option<usize>)
        ensures
            final(ports)@.len() == old(ports)@.len(),
            forall|j: int|
                0 <= j < old(ports)@.len() ==> (final(ports)@[j] is Input <==> old(ports)@[j] is Input),
            r is None ==> final(ports)@ == old(ports)@,
            r matches Some(i) ==> i < old(ports)@.len() && old(ports)@[i as int] is Input && forall|j: int|
                0 <= j < old(ports)@.len() && j != i ==> final(ports)@[j] == old(ports)@[j],
            (forall|j: int| 0 <= j < old(ports)@.len() ==> !(old(ports)@[j] is Input)) ==> r is None,
    {
        let mut idx: Vec<usize> = Vec::new();
        let k: usize;
        {
            let mut sel = select_new();
            let mut i: usize = 0;
            while i < ports.len()
                invariant
                    i <= ports@.len(),
                    idx@.len() == select_added(sel),
                    forall|m: int| 0 <= m < idx@.len() ==> #[trigger] idx@[m] < i && ports@[idx@[m] as int] is Input,
                decreases ports@.len() - i,
            {
                match &ports[i] {
                    Pin::Input { r, .. } => {
                        let _ = select_recv(&mut sel, r);
                        idx.push(i);
                    },
                    _ => {},
                }
                i += 1;
            }
            if idx.len() == 0 {
                return None;
            }
            k = select_ready(&mut sel);
        }
        let j = idx[k];
        let got = match &ports[j] {
            Pin::Input { r, .. } => try_recv_value(r),
            _ => None,
        };
        match got {
            Some(v) => {
                ports[j].latch(Some(v));
                Some(j)
            },
            None => None,
        }
    }

    /// The receiving end of a consumer, for callers that wait on several pins.
    pub fn receiver(&self) -> (r: Option<&crossbeam_channel::Receiver<T>>)
        ensures
            r is Some <==> self is Input,
    {
        match self {
            Pin::Input { r, .. } => Some(r),
            _ => None,
        }
    }
}

} // verus!
