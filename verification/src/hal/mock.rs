//! In-memory implementations of the hardware capability interfaces.
//!
//! Each mock realizes its trait's contract exactly: the bus records every
//! byte shifted out and answers from a queued response stream; the pins hold
//! a level in memory. They let the whole driver run, and be tested, without
//! hardware.

use crate::error::Error;
use crate::hal::gpio::InputPin;
use crate::hal::gpio::OutputPin;
use crate::hal::gpio::PinState;
use crate::hal::spi::BitOrder;
use crate::hal::spi::SpiInterface;
use crate::hal::spi::SpiMode;
use crate::hal::spi::SpiTransfer;
use crate::protocol::wire;
use vstd::prelude::*;

verus! {

/// An in-memory bus: records what is sent, answers from a queue.
#[derive(Debug, Clone)]
pub struct MockSpi {
    clock_hz: u32,
    mode: SpiMode,
    bit_order: BitOrder,
    transfers: Vec<u8>,
    chunk_log: Vec<Vec<u8>>,
    responses: Vec<u8>,
}

impl MockSpi {
    /// Creates a mock bus with an empty record and an empty response queue.
    pub fn new() -> (r: MockSpi)
        ensures
            r.sent() == Seq::<u8>::empty(),
            r.pending() == Seq::<u8>::empty(),
            r.clock() == 24_000_000u32,
    {
        MockSpi {
            clock_hz: 24_000_000,
            mode: SpiMode::Mode0,
            bit_order: BitOrder::MsbFirst,
            transfers: Vec::new(),
            chunk_log: Vec::new(),
            responses: Vec::new(),
        }
    }

    /// The bytes of each transfer exchange recorded so far, one entry per
    /// exchange.
    pub closed spec fn spec_transfer_log(&self) -> Seq<Seq<u8>> {
        Seq::new(self.chunk_log@.len(), |i: int| self.chunk_log@[i]@)
    }

    /// Queues bytes for the device side of the bus to answer with.
    pub fn add_response(&mut self, response: Vec<u8>) -> (r: ())
        ensures
            final (self).pending() == old(self).pending() + response@,
            final (self).sent() == old(self).sent(),
            final (self).clock() == old(self).clock(),
    {
        let mut k: usize = 0;
        while k < response.len()
            invariant
                k <= response@.len(),
                self.responses@ == old(self).responses@ + response@.take(k as int),
                self.transfers@ == old(self).transfers@,
                self.clock_hz == old(self).clock_hz,
            decreases response@.len() - k,
        {
            self.responses.push(response[k]);
            k += 1;
            proof {
                assert(old(self).responses@ + response@.take(k - 1) + seq![response@[k - 1]]
                    =~= old(self).responses@ + response@.take(k as int));
            }
        }
        proof {
            assert(response@.take(response@.len() as int) =~= response@);
        }
    }

    /// Returns the recorded transfers, one entry per exchange.
    pub fn get_transfers(&self) -> (r: Vec<Vec<u8>>)
        ensures
            r@.len() == self.spec_transfer_log().len(),
            forall|i: int| 0 <= i < r@.len() ==> #[trigger] r@[i]@ == self.spec_transfer_log()[i],
    {
        let mut r: Vec<Vec<u8>> = Vec::new();
        let mut k: usize = 0;
        while k < self.chunk_log.len()
            invariant
                k <= self.chunk_log@.len(),
                r@.len() == k,
                forall|i: int| 0 <= i < k ==> #[trigger] r@[i]@ == self.chunk_log@[i]@,
            decreases self.chunk_log@.len() - k,
        {
            let mut copy: Vec<u8> = Vec::new();
            let chunk = &self.chunk_log[k];
            let mut c: usize = 0;
            while c < chunk.len()
                invariant
                    c <= chunk@.len(),
                    copy@ == chunk@.take(c as int),
                decreases chunk@.len() - c,
            {
                copy.push(chunk[c]);
                c += 1;
                proof {
                    assert(copy@ =~= chunk@.take(c as int));
                }
            }
            proof {
                assert(chunk@.take(chunk@.len() as int) =~= chunk@);
            }
            r.push(copy);
            k += 1;
        }
        r
    }

    /// Forgets the recorded transfers and the queued responses.
    pub fn clear(&mut self) -> (r: ())
        ensures
            final (self).sent() == Seq::<u8>::empty(),
            final (self).pending() == Seq::<u8>::empty(),
            final (self).clock() == old(self).clock(),
    {
        self.transfers = Vec::new();
        self.chunk_log = Vec::new();
        self.responses = Vec::new();
    }
}

impl Default for MockSpi {
    /// Same as [`MockSpi::new`].
    fn default() -> (r: MockSpi)
        ensures
            r.sent() == Seq::<u8>::empty(),
            r.pending() == Seq::<u8>::empty(),
    {
        MockSpi::new()
    }
}

impl SpiTransfer for MockSpi {
    closed spec fn sent(&self) -> Seq<u8> {
        self.transfers@
    }

    closed spec fn pending(&self) -> Seq<u8> {
        self.responses@
    }

    fn transfer_byte(&mut self, byte: u8) -> (r: Result<u8, Error>) {
        self.transfers.push(byte);
        let mut chunk: Vec<u8> = Vec::new();
        chunk.push(byte);
        self.chunk_log.push(chunk);
        let rx = if self.responses.len() > 0 {
            let b = self.responses.remove(0);
            proof {
                assert(self.responses@ =~= wire::consume(old(self).responses@, 1));
            }
            b
        } else {
            proof {
                assert(self.responses@ =~= wire::consume(old(self).responses@, 1));
            }
            0
        };
        Ok(rx)
    }

    fn transfer(&mut self, buffer: &[u8]) -> (r: Result<Vec<u8>, Error>) {
        let mut chunk: Vec<u8> = Vec::new();
        let mut c: usize = 0;
        while c < buffer.len()
            invariant
                c <= buffer@.len(),
                chunk@ == buffer@.take(c as int),
            decreases buffer@.len() - c,
        {
            chunk.push(buffer[c]);
            c += 1;
            proof {
                assert(chunk@ =~= buffer@.take(c as int));
            }
        }
        self.chunk_log.push(chunk);
        let mut rx: Vec<u8> = Vec::new();
        let mut k: usize = 0;
        while k < buffer.len()
            invariant
                k <= buffer@.len(),
                self.transfers@ == old(self).transfers@ + buffer@.take(k as int),
                self.responses@ == wire::consume(old(self).responses@, k as int),
                rx@ == wire::resp_bytes(old(self).responses@, k as int),
                self.clock_hz == old(self).clock_hz,
            decreases buffer@.len() - k,
        {
            self.transfers.push(buffer[k]);
            let b = if self.responses.len() > 0 {
                self.responses.remove(0)
            } else {
                0
            };
            rx.push(b);
            k += 1;
            proof {
                assert(self.transfers@ =~= old(self).transfers@ + buffer@.take(k as int));
                wire::lemma_consume_consume(old(self).responses@, k - 1, 1);
                assert(self.responses@ =~= wire::consume(old(self).responses@, k as int));
                wire::lemma_resp_byte_consume(old(self).responses@, k - 1, 0);
                assert(rx@ =~= wire::resp_bytes(old(self).responses@, k as int));
            }
        }
        proof {
            assert(buffer@.take(buffer@.len() as int) =~= buffer@);
        }
        Ok(rx)
    }

    fn set_speed(&mut self, speed_hz: u32) -> (r: Result<(), Error>) {
        self.clock_hz = speed_hz;
        Ok(())
    }
}

impl SpiInterface for MockSpi {
    closed spec fn clock(&self) -> u32 {
        self.clock_hz
    }

    fn set_clock_hz(&mut self, hz: u32) -> (r: Result<(), Error>) {
        self.clock_hz = hz;
        Ok(())
    }

    fn clock_hz(&self) -> (r: u32) {
        self.clock_hz
    }

    fn set_mode(&mut self, mode: SpiMode) -> (r: Result<(), Error>) {
        self.mode = mode;
        Ok(())
    }

    fn set_bit_order(&mut self, order: BitOrder) -> (r: Result<(), Error>) {
        self.bit_order = order;
        Ok(())
    }
}

/// An in-memory input pin whose level is set by the test.
#[derive(Debug, Clone)]
pub struct MockInputPin {
    state: PinState,
}

impl MockInputPin {
    /// Creates a mock input pin at the given level.
    pub fn new(initial_state: PinState) -> (r: MockInputPin)
        ensures
            r.pin_state() == initial_state,
    {
        MockInputPin { state: initial_state }
    }

    /// Sets the level, standing in for external hardware.
    pub fn set_state(&mut self, state: PinState) -> (r: ())
        ensures
            final (self).pin_state() == state,
    {
        self.state = state;
    }
}

impl Default for MockInputPin {
    /// A mock input pin that reads low.
    fn default() -> (r: MockInputPin)
        ensures
            r.pin_state() == PinState::Low,
    {
        MockInputPin::new(PinState::Low)
    }
}

impl InputPin for MockInputPin {
    closed spec fn pin_state(&self) -> PinState {
        self.state
    }

    fn is_high(&self) -> (r: Result<bool, Error>) {
        Ok(match self.state {
            PinState::High => true,
            PinState::Low => false,
        })
    }
}

/// An in-memory output pin that records every level driven.
#[derive(Debug, Clone)]
pub struct MockOutputPin {
    state: PinState,
    history: Vec<PinState>,
}

impl MockOutputPin {
    /// The levels driven so far, the initial level first.
    pub closed spec fn spec_history(&self) -> Seq<PinState> {
        self.history@
    }

    /// Creates a mock output pin at the given level.
    pub fn new(initial_state: PinState) -> (r: MockOutputPin)
        ensures
            r.pin_state() == initial_state,
            r.spec_history() == seq![initial_state],
    {
        let mut history: Vec<PinState> = Vec::new();
        history.push(initial_state);
        MockOutputPin { state: initial_state, history }
    }

    /// Returns the current level.
    pub fn get_state(&self) -> (r: PinState)
        ensures
            r == self.pin_state(),
    {
        self.state
    }

    /// Returns the levels driven so far.
    pub fn get_history(&self) -> (r: Vec<PinState>)
        ensures
            r@ == self.spec_history(),
    {
        self.history.clone()
    }

    /// Forgets the recorded levels.
    pub fn clear_history(&mut self) -> (r: ())
        ensures
            final (self).spec_history() == Seq::<PinState>::empty(),
            final (self).pin_state() == old(self).pin_state(),
    {
        self.history = Vec::new();
    }
}

impl Default for MockOutputPin {
    /// A mock output pin driven low.
    fn default() -> (r: MockOutputPin)
        ensures
            r.pin_state() == PinState::Low,
    {
        MockOutputPin::new(PinState::Low)
    }
}

impl OutputPin for MockOutputPin {
    closed spec fn pin_state(&self) -> PinState {
        self.state
    }

    fn set_high(&mut self) -> (r: Result<(), Error>) {
        self.state = PinState::High;
        self.history.push(PinState::High);
        Ok(())
    }

    fn set_low(&mut self) -> (r: Result<(), Error>) {
        self.state = PinState::Low;
        self.history.push(PinState::Low);
        Ok(())
    }

    fn toggle(&mut self) -> (r: Result<(), Error>) {
        let new_state = match self.state {
            PinState::High => PinState::Low,
            PinState::Low => PinState::High,
        };
        self.state = new_state;
        self.history.push(new_state);
        Ok(())
    }
}

} // verus!
