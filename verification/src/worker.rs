//! One worker: a private random source, a private send buffer, and the
//! rule for what happens after a failure. Workers share nothing but the
//! picture, which none of them changes.

use vstd::prelude::*;
use crate::client::{outcome, queued, remaining, Client, ClientError, Step, WriteEvent};
use crate::image::{Image, ImageView};
use crate::position::Position;
use crate::protocol::command;
use crate::rng::Rng;

verus! {

/// What to do with a worker whose connection failed.
#[derive(Debug, Clone, Copy, PartialEq, Eq, Structural)]
pub enum Reconnect {
    /// Start over after every failure.
    Always,
    /// The first failure ends the worker.
    Never,
    /// Start over after up to this many failures; the next one ends the
    /// worker.
    Bounded(u32),
}

/// The verdict on a worker that has just failed.
#[derive(Debug, Clone, Copy, PartialEq, Eq, Structural)]
pub enum Supervision {
    /// Connect again and go on.
    Restart,
    /// Give the worker up; the others go on.
    Terminate,
}

impl Reconnect {
    /// The verdict after the `failures`-th failure of a worker.
    pub open spec fn verdict(self, failures: nat) -> Supervision {
        match self {
            Reconnect::Always => Supervision::Restart,
            Reconnect::Never => Supervision::Terminate,
            Reconnect::Bounded(limit) => if failures <= limit {
                Supervision::Restart
            } else {
                Supervision::Terminate
            },
        }
    }

    /// Decides whether a worker that has now failed `failures` times in
    /// all starts over.
    pub fn after_failure(self, failures: u64) -> (verdict: Supervision)
        ensures
            verdict == self.verdict(failures as nat),
    {
        match self {
            Reconnect::Always => Supervision::Restart,
            Reconnect::Never => Supervision::Terminate,
            Reconnect::Bounded(limit) => {
                if failures <= limit as u64 {
                    Supervision::Restart
                } else {
                    Supervision::Terminate
                }
            },
        }
    }
}

/// What one worker is told to do, the same for every round.
#[derive(Debug, Clone, Copy, PartialEq, Eq, Structural)]
pub struct Settings {
    /// Added to every sampled position before it is sent.
    pub offset: Position,
    /// Fewer pending bytes than this are not written.
    pub min_bytes_for_sending: u32,
    /// Send gray as three equal channels.
    pub disable_grayscale_support: bool,
    /// What follows a failure.
    pub reconnect: Reconnect,
}

/// The bytes that one round adds for a source in state `seed`: the command
/// for the sampled pixel, drawn at its translated position in its shortest
/// colour; nothing where the sampled position has no colour.
pub open spec fn round_bytes(image: ImageView, settings: Settings, seed: u64) -> Seq<u8> {
    let position = image.sampled(seed).0;
    match image.color_at(position) {
        Some(color) => command(
            position.translated(settings.offset),
            color.normalized(settings.disable_grayscale_support),
        ),
        None => Seq::empty(),
    }
}

/// The mathematical content of a [`Worker`].
pub struct WorkerView {
    /// The number that tells this worker from the others.
    pub id: u64,
    /// The state of its random source.
    pub seed: u64,
    /// The bytes that wait for the network.
    pub pending: Seq<u8>,
    /// How often its connection has failed.
    pub failures: u64,
}

/// One worker between two network operations.
pub struct Worker {
    id: u64,
    rng: Rng,
    client: Client,
    failures: u64,
}

impl View for Worker {
    type V = WorkerView;

    closed spec fn view(&self) -> WorkerView {
        WorkerView {
            id: self.id,
            seed: self.rng@,
            pending: self.client@,
            failures: self.failures,
        }
    }
}

impl Worker {
    /// The worker `id` at its start: its random source is seeded with its
    /// own number, so that it samples the same positions in every run, and
    /// nothing is pending.
    pub fn start(id: u64) -> (worker: Worker)
        ensures
            worker@ == (WorkerView { id, seed: id, pending: Seq::empty(), failures: 0 }),
    {
        Worker { id, rng: Rng::with_seed(id), client: Client::new(), failures: 0 }
    }

    /// The worker's number.
    pub fn id(&self) -> (id: u64)
        ensures
            id == self@.id,
    {
        self.id
    }

    /// How often the worker's connection has failed.
    pub fn failures(&self) -> (failures: u64)
        ensures
            failures == self@.failures,
    {
        self.failures
    }

    /// The pending bytes: what the next write offers to the network.
    pub fn pending(&self) -> (bytes: &[u8])
        ensures
            bytes@ == self@.pending,
    {
        self.client.pending()
    }

    /// The first half of a round: samples a position, looks its colour up,
    /// and queues the command that draws it. Nothing is sent.
    ///
    /// Fails only where the send buffer has no room for the command; the
    /// position is drawn all the same.
    pub fn enqueue_sample(&mut self, image: &Image, settings: Settings) -> (result: Result<
        (),
        ClientError,
    >)
        requires
            image@.width > 0,
            image@.height > 0,
        ensures
            final(self)@.id == old(self)@.id,
            final(self)@.failures == old(self)@.failures,
            final(self)@.seed == image@.sampled(old(self)@.seed).1,
            result == queued(
                old(self)@.pending,
                round_bytes(image@, settings, old(self)@.seed),
            ),
            final(self)@.pending == (if result is Ok {
                old(self)@.pending + round_bytes(image@, settings, old(self)@.seed)
            } else {
                old(self)@.pending
            }),
    {
        let position = image.get_random_position(&mut self.rng);
        match image.get_color(position) {
            Some(color) => {
                let target = position.add(settings.offset);
                let shortest = color.normalize(settings.disable_grayscale_support);
                self.client.enqueue_pixel(target, shortest)
            },
            None => {
                proof {
                    assert(old(self)@.pending + Seq::<u8>::empty() =~= old(self)@.pending);
                }
                Ok(())
            },
        }
    }

    /// The second half of a round, one step at a time: what
    /// [`Client::progress`] decides for this worker's buffer.
    pub fn progress(&mut self, settings: Settings, event: WriteEvent) -> (result: Result<
        Step,
        ClientError,
    >)
        ensures
            final(self)@.id == old(self)@.id,
            final(self)@.seed == old(self)@.seed,
            final(self)@.failures == old(self)@.failures,
            final(self)@.pending == remaining(old(self)@.pending, event),
            result == outcome(old(self)@.pending, settings.min_bytes_for_sending, event),
    {
        self.client.progress(settings.min_bytes_for_sending, event)
    }

    /// Records that the worker's connection failed and decides what
    /// follows.
    ///
    /// A worker that starts over does so from the beginning: what was
    /// pending is dropped with the old connection, and the random source
    /// is seeded again with the worker's number. A worker that is given up
    /// keeps its state. The count of failures stops at `u64::MAX`.
    pub fn fail(&mut self, settings: Settings) -> (verdict: Supervision)
        ensures
            final(self)@.id == old(self)@.id,
            final(self)@.failures == if old(self)@.failures < u64::MAX {
                old(self)@.failures + 1
            } else {
                u64::MAX as int
            },
            verdict == settings.reconnect.verdict(final(self)@.failures as nat),
            verdict is Restart ==> final(self)@.seed == old(self)@.id && final(self)@.pending
                == Seq::<u8>::empty(),
            verdict is Terminate ==> final(self)@.seed == old(self)@.seed && final(self)@.pending
                == old(self)@.pending,
    {
        if self.failures < u64::MAX {
            self.failures = self.failures + 1;
        }
        let verdict = settings.reconnect.after_failure(self.failures);
        if let Supervision::Restart = verdict {
            self.rng = Rng::with_seed(self.id);
            self.client = Client::new();
        }
        verdict
    }
}

/// With unlimited reconnects no failure ends a worker, without reconnects
/// the first one does, and a bounded policy allows exactly as many fresh
/// starts as its limit.
pub proof fn lemma_reconnect_policies(limit: u32, failures: nat)
    requires
        failures >= 1,
    ensures
        Reconnect::Always.verdict(failures) == Supervision::Restart,
        Reconnect::Never.verdict(failures) == Supervision::Terminate,
        Reconnect::Bounded(limit).verdict(failures) == Supervision::Restart <==> failures <= limit,
        Reconnect::Bounded(0).verdict(failures) == Reconnect::Never.verdict(failures),
{
}

/// Once a bounded policy has given a worker up, it never takes it back.
pub proof fn lemma_terminate_is_final(policy: Reconnect, failures: nat, later: nat)
    requires
        policy.verdict(failures) == Supervision::Terminate,
        failures <= later,
    ensures
        policy.verdict(later) == Supervision::Terminate,
{
}

/// What a round queues is either nothing or one complete line for a pixel
/// that is drawn: a colour that normalizes to nothing costs no bytes.
pub proof fn lemma_round_is_one_line(image: ImageView, settings: Settings, seed: u64)
    ensures
        round_bytes(image, settings, seed).len() <= crate::protocol::MAX_COMMAND_LEN,
        round_bytes(image, settings, seed).len() > 0 ==> round_bytes(
            image,
            settings,
            seed,
        ).last() == 0x0au8,
        round_bytes(image, settings, seed).len() == 0 <==> {
            ||| image.color_at(image.sampled(seed).0) is None
            ||| image.color_at(image.sampled(seed).0)->Some_0.normalized(
                settings.disable_grayscale_support,
            ) is Transparent
        },
{
    let position = image.sampled(seed).0;
    if let Some(color) = image.color_at(position) {
        crate::protocol::lemma_command_shape(
            position.translated(settings.offset),
            color.normalized(settings.disable_grayscale_support),
        );
    }
}

} // verus!
