//! The driver's own output frames and the notification listener.
//!
//! The driver writes two kinds of unsolicited frames, both under the
//! reserved id `0000`: one tip announcement at startup, and one `NBLK`
//! notice for every block the node accepts. The listener has two states:
//! subscribed, emitting one notice per received event, and terminated,
//! entered when the notification channel closes, after which it emits
//! nothing more; termination does not touch the command loop.

use vstd::prelude::*;

use crate::hex::{hex_digit, hex_encoded, push_hex};

verus! {

/// The nibbles of a 64-bit number, most significant first.
pub open spec fn u64_nibble(n: u64, i: int) -> u8
    recommends
        0 <= i < 16,
{
    ((n >> (((15 - i) * 4) as u64)) & 0xf) as u8
}

/// The 16 lower-case hex digits of a 64-bit number.
pub open spec fn u64_hex_digits(n: u64) -> Seq<u8> {
    Seq::new(16, |i: int| hex_digit(u64_nibble(n, i)))
}

/// The startup frame announcing the tip block number: ASCII `0000TIPH`
/// and 16 hex digits.
pub open spec fn tip_frame_spec(number: u64) -> Seq<u8> {
    seq![48u8, 48u8, 48u8, 48u8, 84u8, 73u8, 80u8, 72u8] + u64_hex_digits(number)
}

/// The notice frame for a newly accepted block: ASCII `0000NBLK` and the
/// hex of the block's hash.
pub open spec fn notice_frame_spec(hash: Seq<u8>) -> Seq<u8> {
    seq![48u8, 48u8, 48u8, 48u8, 78u8, 66u8, 76u8, 75u8] + hex_encoded(hash)
}

/// Exec counterpart of `hex_digit`, for nibbles of a `u64`.
fn nibble_digit(v: u64) -> (r: u8)
    requires
        v < 16,
    ensures
        r == hex_digit(v as u8),
{
    if v < 10 {
        (v as u8) + 48
    } else {
        (v as u8) + 87
    }
}

/// Builds the tip-announcement frame for a tip block number.
pub fn tip_frame(number: u64) -> (r: Vec<u8>)
    ensures
        r@ == tip_frame_spec(number),
{
    let mut r: Vec<u8> = Vec::new();
    r.push(48);
    r.push(48);
    r.push(48);
    r.push(48);
    r.push(84);
    r.push(73);
    r.push(80);
    r.push(72);
    let mut i: usize = 0;
    while i < 16
        invariant
            i <= 16,
            r@.len() == 8 + i,
            forall|j: int| 0 <= j < r@.len() ==> r@[j] == tip_frame_spec(number)[j],
        decreases 16 - i,
    {
        let shift: u64 = (15 - i as u64) * 4;
        let nib: u64 = (number >> shift) & 0xf;
        assert((number >> shift) & 0xf < 16) by (bit_vector);
        r.push(nibble_digit(nib));
        i += 1;
    }
    proof {
        assert(r@ =~= tip_frame_spec(number));
    }
    r
}

/// Builds the new-block notice frame for an accepted block's hash.
pub fn notice_frame(hash: &[u8]) -> (r: Vec<u8>)
    ensures
        r@ == notice_frame_spec(hash@),
{
    let mut r: Vec<u8> = Vec::new();
    r.push(48);
    r.push(48);
    r.push(48);
    r.push(48);
    r.push(78);
    r.push(66);
    r.push(76);
    r.push(75);
    push_hex(&mut r, hash);
    proof {
        assert(r@ =~= notice_frame_spec(hash@));
    }
    r
}

/// One frame the driver has emitted, as the transcript records it.
pub enum EmittedFrame {
    /// The startup tip announcement.
    Tip { number: u64 },
    /// A new-block notice with the block's hash.
    Notice { hash: Seq<u8> },
}

/// The driver's own output state: the startup announcement already made,
/// and the notification listener. The transcript records every frame the
/// driver has produced, in order.
pub struct Driver {
    live: bool,
    log: Ghost<Seq<EmittedFrame>>,
}

impl Driver {
    /// Every frame the driver has produced, in order.
    pub closed spec fn transcript(&self) -> Seq<EmittedFrame> {
        self.log@
    }

    /// Whether the listener is still subscribed; false once the
    /// notification channel has closed.
    pub closed spec fn listener_live(&self) -> bool {
        self.live
    }

    /// The driver's invariant: the transcript opens with the one tip
    /// announcement, and every later frame is a block notice. It holds
    /// of every driver value, since the startup constructor establishes
    /// it and the listener preserves it.
    #[verifier::type_invariant]
    pub open spec fn wf(self) -> bool {
        &&& self.transcript().len() >= 1
        &&& self.transcript()[0] is Tip
        &&& forall|i: int| 1 <= i < self.transcript().len() ==> self.transcript()[i] is Notice
    }

    /// Starts the driver: reads nothing, emits nothing yet, but hands
    /// back the single tip-announcement frame, to be written before the
    /// listener starts. The transcript therefore opens with it.
    pub fn start(tip_number: u64) -> (r: (Driver, Vec<u8>))
        ensures
            r.0.wf(),
            r.0.listener_live(),
            r.0.transcript() == seq![EmittedFrame::Tip { number: tip_number }],
            r.1@ == tip_frame_spec(tip_number),
    {
        let frame = tip_frame(tip_number);
        let ghost initial_log: Seq<EmittedFrame> = seq![EmittedFrame::Tip { number: tip_number }];
        let d = Driver { live: true, log: Ghost(initial_log) };
        (d, frame)
    }

    /// Feeds the listener one receive from the notification bus:
    /// `Some(hash)` is an accepted block, `None` a closed or failed
    /// channel. A live listener turns each block into exactly one notice
    /// frame; a closed channel terminates it permanently, and a
    /// terminated listener emits nothing, whatever arrives.
    pub fn on_notification(&mut self, event: Option<Vec<u8>>) -> (r: Option<Vec<u8>>)
        ensures
            final(self).wf(),
            match event {
                Some(hash) => if old(self).listener_live() {
                    &&& r matches Some(f) && f@ == notice_frame_spec(hash@)
                    &&& final(self).listener_live()
                    &&& final(self).transcript() == old(self).transcript().push(
                        EmittedFrame::Notice { hash: hash@ },
                    )
                } else {
                    &&& r is None
                    &&& !final(self).listener_live()
                    &&& final(self).transcript() == old(self).transcript()
                },
                None => {
                    &&& r is None
                    &&& !final(self).listener_live()
                    &&& final(self).transcript() == old(self).transcript()
                },
            },
    {
        proof {
            use_type_invariant(&*self);
        }
        match event {
            Some(hash) => {
                if self.live {
                    let frame = notice_frame(hash.as_slice());
                    let ghost new_log = self.log@.push(EmittedFrame::Notice { hash: hash@ });
                    proof {
                        assert(new_log[0] is Tip);
                    }
                    self.log = Ghost(new_log);
                    Some(frame)
                } else {
                    None
                }
            },
            None => {
                self.live = false;
                None
            },
        }
    }
}

/// The startup announcement precedes every notice: in any well-formed
/// driver transcript the first frame is the tip announcement, and it is
/// the only one, however quickly new blocks arrive.
pub proof fn lemma_tip_announced_first(d: &Driver)
    requires
        d.wf(),
    ensures
        d.transcript().len() >= 1,
        d.transcript()[0] is Tip,
        forall|i: int| 0 <= i < d.transcript().len() && d.transcript()[i] is Tip ==> i == 0,
{
}

} // verus!
