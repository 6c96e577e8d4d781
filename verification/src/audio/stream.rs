//! The growable sample queue that sits between the resampling producer and
//! the realtime callback.

use std::collections::VecDeque;
use std::sync::mpsc::Receiver;
use vstd::prelude::*;

verus! {

/// The receiving end of a `std::sync::mpsc` channel, carried as an opaque
/// value: nothing is known about what it will deliver.
#[verifier::external_type_specification]
#[verifier::external_body]
#[verifier::reject_recursive_types(T)]
pub struct ExReceiver<T>(Receiver<T>);

/// Mathematical model of an [`AudioBuffer`].
pub struct BufferModel<T> {
    /// The interleaved samples materialised so far.
    pub queued: Seq<T>,
    /// Whether the stream is complete: the producer has said that no more
    /// blocks will come, or has gone.
    pub done: bool,
    /// The advertised length of the whole stream, in samples.
    pub total_len: nat,
    /// How many more times a read may wait for the producer: at the start,
    /// once for each block that was planned and once more for the end of the
    /// stream.
    pub waits_left: nat,
}

impl<T> BufferModel<T> {
    /// The state after the producer's answer `block` has been taken in. A
    /// block is appended and uses up one wait; the end-of-stream answer
    /// completes the stream, and nothing else does. A complete stream takes
    /// nothing in.
    pub open spec fn accept(self, block: Option<Seq<T>>) -> BufferModel<T> {
        if self.done {
            self
        } else {
            match block {
                Some(samples) => BufferModel {
                    queued: self.queued + samples,
                    done: false,
                    total_len: self.total_len,
                    waits_left: if self.waits_left >= 1 {
                        (self.waits_left - 1) as nat
                    } else {
                        0
                    },
                },
                None => BufferModel {
                    queued: self.queued,
                    done: true,
                    total_len: self.total_len,
                    waits_left: self.waits_left,
                },
            }
        }
    }

    /// Whether a read of `need` samples in total waits for the producer:
    /// samples are missing, the stream is not complete, and a wait is left.
    pub open spec fn wants(self, need: int) -> bool {
        !self.done && self.waits_left > 0 && self.queued.len() < need
    }

    /// The state after waiting for `need` samples in total while the producer
    /// gives `answers`: the answers are taken in one by one, as long as
    /// samples are missing and the stream is not complete.
    pub open spec fn run(self, answers: Seq<Option<Seq<T>>>, need: int) -> BufferModel<T>
        decreases answers.len(),
    {
        if answers.len() == 0 || !self.wants(need) {
            self
        } else {
            self.accept(answers[0]).run(answers.drop_first(), need)
        }
    }

    /// `later` is what waiting for `need` samples in total leads to: the
    /// state after the answers that the producer gave were taken in, with
    /// enough samples there or the stream complete.
    pub open spec fn drained_to(self, later: BufferModel<T>, need: int) -> bool {
        &&& !later.wants(need)
        &&& exists|answers: Seq<Option<Seq<T>>>| #[trigger] self.run(answers, need) == later
    }

    /// `later` holds what `self` holds and possibly more behind it, and is
    /// `self` if `self` is complete.
    pub open spec fn grows_to(self, later: BufferModel<T>) -> bool {
        &&& self.queued.is_prefix_of(later.queued)
        &&& later.total_len == self.total_len
        &&& later.waits_left <= self.waits_left
        &&& self.done ==> later == self
    }

    /// One more answer is taken in exactly when samples are still missing
    /// after the answers before it.
    pub proof fn lemma_run_push(self, answers: Seq<Option<Seq<T>>>, answer: Option<Seq<T>>, need: int)
        requires
            self.run(answers, need).wants(need),
        ensures
            self.run(answers.push(answer), need) == self.run(answers, need).accept(answer),
        decreases answers.len(),
    {
        let longer = answers.push(answer);
        if answers.len() == 0 {
            assert(longer.drop_first() =~= answers);
            assert(self.accept(longer[0]).run(longer.drop_first(), need) == self.accept(answer));
        } else {
            assert(self.wants(need));
            let next = self.accept(answers[0]);
            next.lemma_run_push(answers.drop_first(), answer, need);
            assert(longer.drop_first() =~= answers.drop_first().push(answer));
            assert(longer[0] == answers[0]);
        }
    }

    /// Waiting never loses or reorders samples: what was there stays in
    /// front. Nothing changes at all if no sample was missing or the stream
    /// was complete.
    pub proof fn lemma_run_grows(self, answers: Seq<Option<Seq<T>>>, need: int)
        ensures
            self.grows_to(self.run(answers, need)),
            !self.wants(need) ==> self.run(answers, need) == self,
        decreases answers.len(),
    {
        if answers.len() > 0 && self.wants(need) {
            let next = self.accept(answers[0]);
            next.lemma_run_grows(answers.drop_first(), need);
            let last = next.run(answers.drop_first(), need);
            assert(self.queued.is_prefix_of(next.queued));
            assert(self.queued.is_prefix_of(last.queued));
        }
    }

    /// Waiting completes a stream only on the producer's word, and only
    /// while samples are missing: if the stream was not complete before and
    /// is complete after, fewer than `need` samples are there.
    pub proof fn lemma_run_completes(self, answers: Seq<Option<Seq<T>>>, need: int)
        requires
            !self.done,
            self.run(answers, need).done,
        ensures
            self.run(answers, need).queued.len() < need,
        decreases answers.len(),
    {
        if answers.len() > 0 && self.wants(need) {
            let next = self.accept(answers[0]);
            if !next.done {
                next.lemma_run_completes(answers.drop_first(), need);
            } else {
                next.lemma_run_grows(answers.drop_first(), need);
            }
        }
    }

    /// What holds of every state that waiting leads to: the samples that
    /// were there stay in front, nothing changes if none was missing, and
    /// the stream is completed only while samples are missing.
    pub proof fn lemma_drained_grows(self, later: BufferModel<T>, need: int)
        requires
            self.drained_to(later, need),
        ensures
            self.grows_to(later),
            !self.wants(need) ==> later == self,
            !self.done && later.done ==> later.queued.len() < need,
    {
        let answers = choose|answers: Seq<Option<Seq<T>>>| #[trigger]
            self.run(answers, need) == later;
        self.lemma_run_grows(answers, need);
        if !self.done && later.done {
            self.lemma_run_completes(answers, need);
        }
    }

    /// First index past the samples that a read of `count` samples at `pos`
    /// returns.
    pub open spec fn read_end(self, pos: int, count: int) -> int {
        if pos + count <= self.queued.len() {
            pos + count
        } else {
            self.queued.len() as int
        }
    }

    /// The samples that a read of `count` samples at `pos` returns: up to
    /// `count` of them, as far as they are materialised.
    pub open spec fn fetch(self, pos: int, count: int) -> Seq<T>
        recommends
            0 <= pos,
            0 <= count,
    {
        if pos < self.queued.len() {
            self.queued.subrange(pos, self.read_end(pos, count))
        } else {
            Seq::empty()
        }
    }

    /// Whether a read of `count` samples at `pos` comes back short.
    pub open spec fn short(self, pos: int, count: int) -> bool {
        self.fetch(pos, count).len() < count
    }
}

/// An answer of the producer as the model sees it: a block of samples, or
/// the end of the stream.
pub open spec fn answer_of<T>(block: Option<Vec<T>>) -> Option<Seq<T>> {
    match block {
        Some(samples) => Some(samples@),
        None => None,
    }
}

/// Waits on `Receiver::recv` for the producer's next answer. A block that was
/// sent is handed on as it is; a closed channel counts as the end of the
/// stream. Nothing is claimed about which of them arrives.
#[verifier::external_body]
fn next_block<T>(producer: &Receiver<Option<Vec<T>>>) -> (block: Option<Vec<T>>) {
    match producer.recv() {
        Ok(block) => block,
        Err(_) => None,
    }
}

/// A sample queue fed block by block from a producer on another thread.
///
/// The queue only grows. Reads address any position of the stream and wait
/// for the producer only while the samples they need are missing. The stream
/// is complete once the producer says so or is gone. So that every read
/// ends, the queue is made for a number of blocks and waits at most once
/// more often than that: once for each block and once for the end of the
/// stream.
#[verifier::reject_recursive_types(T)]
pub struct AudioBuffer<T> {
    channel: Receiver<Option<Vec<T>>>,
    buffer: VecDeque<T>,
    done: bool,
    len: usize,
    waits_left: usize,
}

impl<T> View for AudioBuffer<T> {
    type V = BufferModel<T>;

    closed spec fn view(&self) -> BufferModel<T> {
        BufferModel {
            queued: self.buffer@,
            done: self.done,
            total_len: self.len as nat,
            waits_left: self.waits_left as nat,
        }
    }
}

impl<T: Copy> AudioBuffer<T> {
    /// An empty queue on `channel`, for a stream advertised as `len` samples
    /// long that is planned to arrive in `blocks` blocks.
    pub fn new(channel: Receiver<Option<Vec<T>>>, len: usize, blocks: usize) -> (buffer: Self)
        ensures
            buffer@ == (BufferModel::<T> {
                queued: Seq::empty(),
                done: false,
                total_len: len as nat,
                waits_left: if blocks < usize::MAX {
                    (blocks + 1) as nat
                } else {
                    usize::MAX as nat
                },
            }),
    {
        AudioBuffer {
            channel,
            buffer: VecDeque::new(),
            done: false,
            len,
            waits_left: blocks.saturating_add(1),
        }
    }

    /// The advertised length of the whole stream, in samples.
    pub fn len(&self) -> (len: usize)
        ensures
            len == self@.total_len,
    {
        self.len
    }

    /// Whether the stream is complete.
    pub fn is_done(&self) -> (done: bool)
        ensures
            done == self@.done,
    {
        self.done
    }

    /// The number of samples materialised so far.
    pub fn queued_len(&self) -> (n: usize)
        ensures
            n == self@.queued.len(),
    {
        self.buffer.len()
    }

    /// Takes in one answer of the producer.
    pub fn accept(&mut self, block: Option<Vec<T>>)
        ensures
            final(self)@ == old(self)@.accept(answer_of(block)),
    {
        if self.done {
            return ;
        }
        match block {
            Some(samples) => {
                let n: usize = samples.len();
                let mut i: usize = 0;
                while i < n
                    invariant
                        n == samples@.len(),
                        i <= n,
                        self.buffer@ == old(self).buffer@ + samples@.subrange(0, i as int),
                        self.done == old(self).done,
                        self.len == old(self).len,
                        self.waits_left == old(self).waits_left,
                    decreases n - i,
                {
                    self.buffer.push_back(samples[i]);
                    assert(samples@.subrange(0, i + 1) =~= samples@.subrange(0, i as int).push(
                        samples@[i as int],
                    ));
                    i += 1;
                }
                assert(samples@.subrange(0, n as int) =~= samples@);
                if self.waits_left > 0 {
                    self.waits_left = self.waits_left - 1;
                }
            },
            None => {
                self.done = true;
            },
        }
    }

    /// Returns up to `count` samples starting at `pos` of what is
    /// materialised, and whether fewer than `count` came back.
    pub fn fetch(&self, pos: usize, count: usize) -> (out: (Vec<T>, bool))
        ensures
            out.0@ == self@.fetch(pos as int, count as int),
            out.1 == self@.short(pos as int, count as int),
    {
        let have: usize = self.buffer.len();
        if pos < have {
            let end: usize = if count <= have - pos {
                pos + count
            } else {
                have
            };
            let mut samples: Vec<T> = Vec::new();
            let mut at: usize = pos;
            while at < end
                invariant
                    pos <= at <= end <= have,
                    have == self.buffer@.len(),
                    samples@ == self.buffer@.subrange(pos as int, at as int),
                decreases end - at,
            {
                samples.push(self.buffer[at]);
                assert(self.buffer@.subrange(pos as int, at + 1) =~= self.buffer@.subrange(
                    pos as int,
                    at as int,
                ).push(self.buffer@[at as int]));
                at += 1;
            }
            let short = samples.len() < count;
            (samples, short)
        } else {
            (Vec::new(), 0 < count)
        }
    }

    /// Whether a wait for up to `limit` samples in total, or for the whole
    /// stream if there is no limit, has to go on.
    fn still_wants(&self, limit: Option<usize>) -> (wants: bool)
        ensures
            wants == (!self@.done && self@.waits_left > 0 && match limit {
                Some(need) => self@.queued.len() < need,
                None => true,
            }),
            self@.queued.len() <= usize::MAX,
    {
        let have: usize = self.buffer.len();
        !self.done && self.waits_left > 0 && match limit {
            Some(need) => have < need,
            None => true,
        }
    }

    /// Waits for the producer while `need` samples in total are wanted.
    /// `limit` is `need` where the machine can hold it.
    fn drain(&mut self, limit: Option<usize>, Ghost(need): Ghost<int>)
        requires
            match limit {
                Some(limit) => need == limit,
                None => need > usize::MAX,
            },
        ensures
            old(self)@.drained_to(final(self)@, need),
    {
        let ghost mut answers: Seq<Option<Seq<T>>> = Seq::empty();
        while self.still_wants(limit)
            invariant
                match limit {
                    Some(limit) => need == limit,
                    None => need > usize::MAX,
                },
                self@ == old(self)@.run(answers, need),
            ensures
                !self@.wants(need),
            decreases self.waits_left, if self.done { 0int } else { 1int },
        {
            let block = next_block(&self.channel);
            proof {
                old(self)@.lemma_run_push(answers, answer_of(block), need);
                answers = answers.push(answer_of(block));
            }
            self.accept(block);
        }
    }

    /// Reads `count` samples starting at `pos`. While the stream is not
    /// complete and a wait is left, this waits for the producer until
    /// `pos + count` samples are materialised. It then returns up to `count`
    /// samples from `pos` on, and whether fewer than `count` came back.
    pub fn read_samples(&mut self, pos: usize, count: usize) -> (out: (Vec<T>, bool))
        ensures
            old(self)@.drained_to(final(self)@, pos + count),
            out.0@ == final(self)@.fetch(pos as int, count as int),
            out.1 == final(self)@.short(pos as int, count as int),
    {
        self.drain(pos.checked_add(count), Ghost(pos + count));
        self.fetch(pos, count)
    }
}

} // verus!
