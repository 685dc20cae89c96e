//! The UDP audio receiver: its run flag, and what it does with each
//! datagram.
//!
//! The receive loop runs on its own thread and polls the flag; stopping the
//! receiver clears it. Each datagram is read with
//! [`crate::datagram::read_audio_datagram`] and its samples are offered to
//! the jitter buffer.

use crate::datagram::{read_audio_datagram, received_samples, DatagramRejection};
use crate::jitter::{
    cached_items, cached_vacant, offer_all, offered, producer_capacity, SampleProducer,
};
use std::sync::Arc;
use std::sync::atomic::{AtomicBool, Ordering};
use vstd::prelude::*;

verus! {

/// A UDP audio receiver, as far as starting and stopping it goes.
pub struct UdpAudioReceiver {
    running: Arc<AtomicBool>,
}

impl Default for UdpAudioReceiver {
    /// A receiver that is not running, as [`UdpAudioReceiver::new`] makes it.
    fn default() -> Self {
        UdpAudioReceiver::new()
    }
}

/// `Arc::clone`: another handle to the same allocation. Verus takes an
/// `Arc` to be the value it points to, so the new handle equals the one it
/// was cloned from.
#[verifier::external_body]
fn share_flag(flag: &Arc<AtomicBool>) -> (r: Arc<AtomicBool>)
    ensures
        r == *flag,
{
    Arc::clone(flag)
}

impl UdpAudioReceiver {
    /// The run flag this receiver sets and clears.
    pub closed spec fn run_flag(&self) -> Arc<AtomicBool> {
        self.running
    }

    /// A receiver that is not running.
    pub fn new() -> Self {
        UdpAudioReceiver { running: Arc::new(AtomicBool::new(false)) }
    }

    /// Marks the receiver running and returns the flag its receive loop
    /// polls: this receiver's own flag, the one [`Self::stop`] clears, so the
    /// loop ends once the receiver is stopped.
    pub fn begin(&self) -> (r: Arc<AtomicBool>)
        ensures
            r == self.run_flag(),
    {
        self.running.store(true, Ordering::SeqCst);
        share_flag(&self.running)
    }

    /// Asks the receive loop to end.
    pub fn stop(&self) {
        self.running.store(false, Ordering::SeqCst);
    }

    /// Handles one received datagram: the samples it carries are offered to
    /// the jitter buffer in order (those that find it full are dropped) and
    /// their number taken is returned; a datagram the reader refuses leaves
    /// the buffer untouched and gives the reason. While the producer knows of
    /// room for all the samples, all are taken and follow what it had
    /// written, in order; otherwise those taken are an in-order selection of
    /// the samples that holds at least as many of the first ones as it knew
    /// of room for (see [`offered`]).
    pub fn deliver_datagram(producer: &mut SampleProducer, datagram: &[u8]) -> (r: Result<
        usize,
        DatagramRejection,
    >)
        ensures
            match received_samples(datagram@) {
                Ok(samples) => {
                    &&& r matches Ok(taken) && taken <= samples.len() && taken >= if samples.len()
                        <= cached_vacant(*old(producer)) {
                        samples.len() as int
                    } else {
                        cached_vacant(*old(producer)) as int
                    } && offered(
                        cached_items(*old(producer)),
                        cached_vacant(*old(producer)),
                        samples,
                        taken as nat,
                        cached_items(*final(producer)),
                    )
                    &&& samples.len() <= cached_vacant(*old(producer)) ==> {
                        &&& r == Ok::<usize, DatagramRejection>(samples.len() as usize)
                        &&& cached_items(*final(producer)) == cached_items(*old(producer))
                            + samples
                        &&& cached_vacant(*final(producer)) == cached_vacant(*old(producer))
                            - samples.len()
                    }
                },
                Err(why) => {
                    &&& r == Err::<usize, DatagramRejection>(why)
                    &&& *final(producer) == *old(producer)
                },
            },
            producer_capacity(*final(producer)) == producer_capacity(*old(producer)),
    {
        match read_audio_datagram(datagram) {
            Ok(samples) => Ok(offer_all(producer, samples.as_slice())),
            Err(why) => Err(why),
        }
    }
}

} // verus!
