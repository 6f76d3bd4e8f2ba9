//! Session lifecycle: binding a header to a jitter buffer and an adaptation
//! state, and deciding on every packet whether the current session carries
//! on or a new one replaces it.
//!
//! A session exists per accepted header. A packet whose header differs from
//! the remembered one (or arrives while nothing plays) tears the old session
//! down, discarding whatever it had buffered, and starts a fresh one in the
//! stopped state. A read timeout tears the session down without starting a
//! replacement; the remembered header survives the timeout, so the next
//! packet starts fresh even when its header is unchanged. Packets shorter
//! than a header, and headers encoding a zero rate, are dropped as no-ops.

use vstd::prelude::*;

use crate::buffer::JitterBuffer;
use crate::convert::MultichannelSample;
use crate::convert::convert_to_sample;
use crate::convert::sample_matches_frame;
use crate::engine::Config;
use crate::engine::RateAdapter;
use crate::engine::spec_buffer_after;
use crate::engine::spec_fresh_adapter;
use crate::engine::spec_effective_request;
use crate::engine::spec_emitted_sample;
use crate::engine::spec_next_iteration;
use crate::engine::spec_output_mode;
use crate::scream::DEFAULT_CHANNELS;
use crate::scream::SCREAM_HEADER_SIZE;
use crate::scream::SCREAM_PACKET_MAX_SIZE;
use crate::scream::ScreamHeader;
use crate::scream::ScreamHeaderArray;
use crate::scream::spec_rate_valid;
use crate::scream::spec_sample_bits;

verus! {

/// One live playback session: the header it was created for, the queue the
/// network side fills and the audio side drains, and the adaptation state.
pub struct PlaybackSession {
    /// The header every packet of this session carries.
    pub header: ScreamHeaderArray,
    /// The session's jitter buffer.
    pub buffer: JitterBuffer,
    /// The session's rate adaptation state.
    pub adapter: RateAdapter,
}

/// What became of one received packet.
#[derive(Clone, Copy, Debug, PartialEq, Eq, Structural)]
pub enum PacketOutcome {
    /// The packet holds fewer bytes than one header: dropped.
    TooShort,
    /// The header encodes a rate of 0 Hz: a no-op header, nothing changes.
    InvalidRate,
    /// The packet fed the session.
    Accepted {
        /// Whether a fresh session replaced the previous state.
        new_session: bool,
        /// How many payload frames were queued.
        pushed: usize,
        /// How many payload frames the full buffer dropped.
        overflowed: usize,
    },
}

/// Bytes of one payload frame: one signed integer per channel.
pub open spec fn spec_frame_size(bits: u8) -> int {
    (bits as int / 8) * DEFAULT_CHANNELS
}

/// How many whole frames the packet's payload holds at the given depth.
pub open spec fn spec_frame_count(packet: Seq<u8>, bits: u8) -> int {
    if spec_frame_size(bits) == 0 {
        0
    } else {
        (packet.len() - SCREAM_HEADER_SIZE) / spec_frame_size(bits)
    }
}

/// The bytes of payload frame `k`.
pub open spec fn spec_frame_bytes(packet: Seq<u8>, bits: u8, k: int) -> Seq<u8> {
    packet.subrange(
        SCREAM_HEADER_SIZE + k * spec_frame_size(bits),
        SCREAM_HEADER_SIZE + (k + 1) * spec_frame_size(bits),
    )
}

/// Whether a packet's header obliges a fresh session: nothing is playing,
/// or the header differs bytewise from the remembered one.
pub fn needs_new_session(
    playing: bool,
    previous_header: &ScreamHeaderArray,
    header: &ScreamHeaderArray,
) -> (r: bool)
    ensures
        r == (!playing || previous_header@ != header@),
{
    let same = previous_header[0] == header[0] && previous_header[1] == header[1]
        && previous_header[2] == header[2] && previous_header[3] == header[3]
        && previous_header[4] == header[4];
    proof {
        if same {
            assert(previous_header@ =~= header@);
        }
    }
    !playing || !same
}

/// The network side's state: the configuration, the remembered header of
/// the last accepted packet, and the active session, if any.
pub struct SessionManager {
    /// The adaptation settings every session is created with.
    pub config: Config,
    /// The active session, or nothing while the receiver waits.
    pub session: Option<PlaybackSession>,
    /// Header of the most recently accepted packet; all zero before one.
    pub previous_header: ScreamHeaderArray,
}

impl SessionManager {
    /// The settings fit the platform; the active session carries the
    /// remembered header and its buffer honors its capacity, which is ten
    /// times the configured target.
    pub open spec fn wf(&self) -> bool {
        &&& self.config.wf()
        &&& (self.session matches Some(s) ==> s.header == self.previous_header && s.buffer.inv()
            && s.buffer.spec_capacity() == self.config.samples_buffered * 10)
    }

    /// A waiting receiver: no session, no remembered header.
    pub fn new(config: Config) -> (r: SessionManager)
        requires
            config.wf(),
        ensures
            r.config == config,
            r.session is None,
            r.previous_header@ =~= Seq::new(SCREAM_HEADER_SIZE as nat, |i: int| 0u8),
            r.wf(),
    {
        SessionManager { config, session: None, previous_header: [0u8; SCREAM_HEADER_SIZE] }
    }

    /// Whether a session is currently playing.
    pub fn is_playing_now(&self) -> (r: bool)
        ensures
            r == (self.session is Some),
    {
        self.session.is_some()
    }

    /// The active session's buffer occupancy; zero while nothing plays.
    pub fn buffered_samples(&self) -> (r: usize)
        ensures
            self.session matches Some(s) ==> r == s.buffer@.len(),
            self.session is None ==> r == 0,
    {
        match &self.session {
            Some(s) => s.buffer.len(),
            None => 0,
        }
    }

    /// A read timeout with no packet: the active session is torn down and
    /// the output falls silent; the remembered header stays, so the next
    /// packet starts a fresh session even with an unchanged header. Returns
    /// whether a session was stopped.
    pub fn on_timeout(&mut self) -> (stopped: bool)
        ensures
            stopped == (old(self).session is Some),
            final(self).session is None,
            final(self).previous_header == old(self).previous_header,
            final(self).config == old(self).config,
            old(self).wf() ==> final(self).wf(),
    {
        let stopped = self.session.is_some();
        self.session = None;
        stopped
    }

    /// Drops the session and forgets the remembered header, so the next
    /// packet always starts fresh: the recovery when a device stream cannot
    /// be opened for a newly accepted header.
    pub fn clear_session(&mut self)
        ensures
            final(self).session is None,
            final(self).previous_header@ =~= Seq::new(SCREAM_HEADER_SIZE as nat, |i: int| 0u8),
            final(self).config == old(self).config,
            old(self).wf() ==> final(self).wf(),
    {
        self.session = None;
        self.previous_header = [0u8; SCREAM_HEADER_SIZE];
    }

    /// Feeds one received packet to the receiver. A packet shorter than a
    /// header, or one whose header encodes a zero rate, changes nothing. An
    /// accepted packet starts a fresh, stopped session exactly when nothing
    /// plays or its header differs from the remembered one (discarding
    /// whatever the old session had buffered), then queues every whole
    /// payload frame, dropping and counting the ones a full buffer refuses.
    pub fn on_packet(&mut self, packet: &[u8]) -> (out: PacketOutcome)
        requires
            old(self).wf(),
            packet@.len() <= SCREAM_PACKET_MAX_SIZE,
        ensures
            final(self).wf(),
            final(self).config == old(self).config,
            packet@.len() < SCREAM_HEADER_SIZE ==> out == PacketOutcome::TooShort && *final(self)
                == *old(self),
            packet@.len() >= SCREAM_HEADER_SIZE && !spec_rate_valid(packet@) ==> out
                == PacketOutcome::InvalidRate && *final(self) == *old(self),
            packet@.len() >= SCREAM_HEADER_SIZE && spec_rate_valid(packet@) ==> ({
                let hdr = packet@.subrange(0, SCREAM_HEADER_SIZE as int);
                let bits = spec_sample_bits(packet@);
                let fresh = old(self).session is None || old(self).previous_header@ != hdr;
                let base = if fresh {
                    Seq::<MultichannelSample>::empty()
                } else {
                    old(self).session->Some_0.buffer@
                };
                let room = old(self).config.samples_buffered * 10 - base.len();
                let n = spec_frame_count(packet@, bits);
                let queued = vstd::math::min(n, room as int);
                &&& final(self).session matches Some(s) && {
                    &&& s.header@ =~= hdr
                    &&& s.buffer@.len() == base.len() + queued
                    &&& (forall|j: int| 0 <= j < base.len() ==> s.buffer@[j] == base[j])
                    &&& (forall|j: int|
                        0 <= j < queued ==> sample_matches_frame(
                            #[trigger] s.buffer@[base.len() + j],
                            bits,
                            spec_frame_bytes(packet@, bits, j),
                        ))
                    &&& (fresh ==> spec_fresh_adapter(s.adapter))
                    &&& (!fresh ==> s.adapter == old(self).session->Some_0.adapter)
                }
                &&& final(self).previous_header@ =~= hdr
                &&& (!fresh ==> final(self).previous_header == old(self).previous_header)
                &&& out == (PacketOutcome::Accepted {
                    new_session: fresh,
                    pushed: queued as usize,
                    overflowed: (n - queued) as usize,
                })
            }),
    {
        if packet.len() < SCREAM_HEADER_SIZE {
            return PacketOutcome::TooShort;
        }
        let header: ScreamHeaderArray = [packet[0], packet[1], packet[2], packet[3], packet[4]];
        let ghost hdr = packet@.subrange(0, SCREAM_HEADER_SIZE as int);
        proof {
            assert(header@ =~= hdr);
        }
        if header[0] & 0x7f == 0 {
            return PacketOutcome::InvalidRate;
        }
        let playing = self.is_playing_now();
        let new_session = needs_new_session(playing, &self.previous_header, &header);
        if new_session {
            let capacity = self.config.samples_buffered * 10;
            self.session = Some(
                PlaybackSession {
                    header,
                    buffer: JitterBuffer::new(capacity),
                    adapter: RateAdapter::new(),
                },
            );
            self.previous_header = header;
        }
        let bits = header[1];
        proof {
            assert(bits / 8 <= 31) by (bit_vector);
        }
        let bytes_per_sample = (bits / 8) as usize;
        let channels = DEFAULT_CHANNELS as usize;
        proof {
            assert(bytes_per_sample * channels <= 62) by (nonlinear_arith)
                requires
                    bytes_per_sample <= 31,
                    channels == 2,
            ;
        }
        let frame_size = bytes_per_sample * channels;
        let mut pushed: usize = 0;
        let mut overflowed: usize = 0;
        if frame_size > 0 {
            let payload_len = packet.len() - SCREAM_HEADER_SIZE;
            let session_opt = self.session.take();
            match session_opt {
                Some(mut session) => {
                    let ghost base = session.buffer@;
                    let ghost cap = session.buffer.spec_capacity();
                    let ghost adapter_at_entry = session.adapter;
                    let ghost header_at_entry = session.header;
                    let mut offset: usize = SCREAM_HEADER_SIZE;
                    let ghost mut k: int = 0;
                    while offset + frame_size <= packet.len()
                        invariant
                            hdr == packet@.subrange(0, SCREAM_HEADER_SIZE as int),
                            session.header@ =~= hdr,
                            session.adapter == adapter_at_entry,
                            session.header == header_at_entry,
                            bits == spec_sample_bits(packet@),
                            frame_size == spec_frame_size(bits),
                            0 < frame_size <= 62,
                            packet@.len() <= SCREAM_PACKET_MAX_SIZE,
                            SCREAM_HEADER_SIZE <= offset <= packet@.len(),
                            offset == SCREAM_HEADER_SIZE + k * frame_size,
                            0 <= k,
                            k + SCREAM_HEADER_SIZE <= offset,
                            pushed + overflowed == k,
                            session.buffer.spec_capacity() == cap,
                            base.len() <= cap,
                            session.buffer.inv(),
                            session.buffer@.len() == base.len() + pushed,
                            pushed as int == vstd::math::min(k, cap - base.len()),
                            forall|j: int| 0 <= j < base.len() ==> session.buffer@[j] == base[j],
                            forall|j: int|
                                0 <= j < pushed ==> sample_matches_frame(
                                    #[trigger] session.buffer@[base.len() + j],
                                    bits,
                                    spec_frame_bytes(packet@, bits, j),
                                ),
                        decreases packet@.len() - offset,
                    {
                        proof {
                            assert((k + 1) * frame_size == k * frame_size + frame_size)
                                by (nonlinear_arith);
                        }
                        let frame = &packet[offset..offset + frame_size];
                        proof {
                            assert(frame@ =~= spec_frame_bytes(packet@, bits, k));
                        }
                        let sample = convert_to_sample(&session.header, frame);
                        proof {
                            assert(session.header.header_seq() =~= hdr);
                            assert(hdr[1] == packet@[1]);
                            assert(sample_matches_frame(
                                sample,
                                bits,
                                spec_frame_bytes(packet@, bits, k),
                            ));
                        }
                        let ghost buf_before = session.buffer@;
                        match session.buffer.push(sample) {
                            Ok(()) => {
                                pushed = pushed + 1;
                                proof {
                                    assert(session.buffer@ =~= buf_before.push(sample));
                                    assert(session.buffer@[base.len() + (pushed - 1)] == sample);
                                }
                            },
                            Err(_) => {
                                overflowed = overflowed + 1;
                            },
                        }
                        offset = offset + frame_size;
                        proof {
                            k = k + 1;
                        }
                    }
                    proof {
                        let payload = packet@.len() - SCREAM_HEADER_SIZE;
                        vstd::arithmetic::div_mod::lemma_fundamental_div_mod_converse(
                            payload,
                            frame_size as int,
                            k,
                            payload - k * frame_size,
                        );
                        assert(k == spec_frame_count(packet@, bits));
                        assert(session.header@ =~= self.previous_header@);
                        assert(session.header == self.previous_header);
                    }
                    self.session = Some(session);
                },
                None => {
                    self.session = None;
                },
            }
        }
        PacketOutcome::Accepted { new_session, pushed, overflowed }
    }

    /// One device pull: the sample for the next output frame from the
    /// active session, or nothing while no session plays.
    pub fn render_frame(&mut self, samples_requested: usize) -> (r: Option<MultichannelSample>)
        requires
            old(self).wf(),
        ensures
            final(self).wf(),
            final(self).config == old(self).config,
            final(self).previous_header == old(self).previous_header,
            old(self).session is None ==> r is None && *final(self) == *old(self),
            old(self).session matches Some(s) ==> ({
                let iter = spec_next_iteration(s.adapter.iteration);
                let mode = spec_output_mode(
                    s.adapter.output_mode,
                    spec_effective_request(old(self).config, samples_requested as int),
                    s.buffer@.len() as int,
                    old(self).config,
                );
                &&& final(self).session matches Some(t) && {
                    &&& t.header == s.header
                    &&& t.adapter.output_mode == mode
                    &&& t.adapter.iteration == iter
                    &&& t.adapter.last_sample == spec_emitted_sample(
                        mode,
                        s.buffer@,
                        s.adapter.last_sample,
                        iter,
                    )
                    &&& t.buffer@ =~= spec_buffer_after(mode, s.buffer@, iter)
                }
                &&& r == Some(spec_emitted_sample(mode, s.buffer@, s.adapter.last_sample, iter))
            }),
    {
        let config = self.config;
        match &mut self.session {
            Some(session) => {
                let sample = session.adapter.next_frame(
                    &mut session.buffer,
                    samples_requested,
                    &config,
                );
                Some(sample)
            },
            None => None,
        }
    }
}

} // verus!
