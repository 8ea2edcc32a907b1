//! Frames: one payload between two sentinel bytes, on a stream that has no
//! other message boundaries.

use vstd::prelude::*;

verus! {

/// The byte that opens and closes every frame.
pub const SENTINEL: u8 = 0;

/// The frame that carries `payload`.
pub open spec fn frame_of(payload: Seq<u8>) -> Seq<u8> {
    seq![SENTINEL] + payload + seq![SENTINEL]
}

/// Whether no byte of `bytes` is the sentinel.
pub open spec fn sentinel_free(bytes: Seq<u8>) -> bool {
    forall|i: int| 0 <= i < bytes.len() ==> bytes[i] != SENTINEL
}

/// How many bytes stand before the first sentinel of `bytes`; all of them
/// if it holds none.
pub open spec fn run_length(bytes: Seq<u8>) -> nat
    decreases bytes.len(),
{
    if bytes.len() == 0 || bytes[0] == SENTINEL {
        0
    } else {
        1 + run_length(bytes.drop_first())
    }
}

/// What a reader makes of the bytes it has been given.
pub enum FrameModel {
    /// No frame is complete yet.
    More,
    /// The bytes cannot be a frame.
    Broken,
    /// A frame is complete, and this is its payload.
    Frame(Seq<u8>),
}

/// What the start of a stream holds: nothing yet, something that does not
/// open with the sentinel, an open frame, or a frame that the first
/// sentinel after the opening one closes.
pub open spec fn scan(stream: Seq<u8>) -> FrameModel {
    if stream.len() == 0 {
        FrameModel::More
    } else if stream[0] != SENTINEL {
        FrameModel::Broken
    } else {
        let body = stream.drop_first();
        let n = run_length(body);
        if n < body.len() {
            FrameModel::Frame(body.take(n as int))
        } else {
            FrameModel::More
        }
    }
}

/// What comes of reading `chunk` after `stream`. A read that returns no
/// byte means that the stream has ended, which breaks the frame.
pub open spec fn fed(stream: Seq<u8>, chunk: Seq<u8>) -> FrameModel {
    if chunk.len() == 0 {
        FrameModel::Broken
    } else {
        scan(stream + chunk)
    }
}

/// What comes of reading `chunks` one after the other, after `stream`: the
/// first outcome that ends the frame, or `More` if none does.
pub open spec fn delivered(stream: Seq<u8>, chunks: Seq<Seq<u8>>) -> FrameModel
    decreases chunks.len(),
{
    if chunks.len() == 0 {
        FrameModel::More
    } else {
        match fed(stream, chunks[0]) {
            FrameModel::More => delivered(stream + chunks[0], chunks.drop_first()),
            ended => ended,
        }
    }
}

/// The run before the first sentinel ends where that sentinel stands.
pub proof fn lemma_run_length_at(bytes: Seq<u8>, at: int)
    requires
        0 <= at <= bytes.len(),
        sentinel_free(bytes.take(at)),
        at < bytes.len() ==> bytes[at] == SENTINEL,
    ensures
        run_length(bytes) == at,
    decreases at,
{
    if at == 0 {
    } else {
        assert(bytes.take(at)[0] == bytes[0]);
        let rest = bytes.drop_first();
        let run = rest.take(at - 1);
        assert forall|i: int| 0 <= i < run.len() implies run[i] != SENTINEL by {
            assert(bytes.take(at)[i + 1] == rest[i]);
        }
        lemma_run_length_at(rest, at - 1);
    }
}

/// A payload without sentinel comes back out of its own frame.
pub proof fn lemma_frame_round_trip(payload: Seq<u8>)
    requires
        sentinel_free(payload),
    ensures
        scan(frame_of(payload)) == FrameModel::Frame(payload),
{
    let stream = frame_of(payload);
    let body = stream.drop_first();
    assert(body =~= payload + seq![SENTINEL]);
    assert(body.take(payload.len() as int) =~= payload);
    lemma_run_length_at(body, payload.len() as int);
}

/// A response that arrives in two reads is the response that arrives in
/// one: where the first chunk neither closes nor breaks the frame, reading
/// the second after it comes to what reading both at once comes to.
pub proof fn lemma_split_delivery(first: Seq<u8>, second: Seq<u8>)
    requires
        first.len() > 0,
        second.len() > 0,
        scan(first) is More,
    ensures
        delivered(Seq::empty(), seq![first, second]) == delivered(
            Seq::empty(),
            seq![first + second],
        ),
{
    let empty = Seq::<u8>::empty();
    let two = seq![first, second];
    let one = seq![first + second];
    assert(empty + first =~= first);
    assert(empty + (first + second) =~= first + second);
    assert(two.drop_first() =~= seq![second]);
    assert(seq![second].drop_first() =~= Seq::<Seq<u8>>::empty());
    assert(one.drop_first() =~= Seq::<Seq<u8>>::empty());
    assert(delivered(empty + first, seq![second]) == match fed(first, second) {
        FrameModel::More => delivered(first + second, Seq::<Seq<u8>>::empty()),
        ended => ended,
    });
    assert(delivered(empty, two) == delivered(empty + first, two.drop_first()));
}

/// Puts a payload between two sentinels.
pub fn frame(payload: &[u8]) -> (framed: Vec<u8>)
    ensures
        framed@ == frame_of(payload@),
{
    let mut framed: Vec<u8> = Vec::new();
    framed.push(SENTINEL);
    let mut i: usize = 0;
    while i < payload.len()
        invariant
            i <= payload.len(),
            framed@ == seq![SENTINEL] + payload@.take(i as int),
        decreases payload.len() - i,
    {
        framed.push(payload[i]);
        i = i + 1;
        assert(framed@ =~= seq![SENTINEL] + payload@.take(i as int));
    }
    framed.push(SENTINEL);
    assert(payload@.take(payload.len() as int) =~= payload@);
    assert(framed@ =~= frame_of(payload@));
    framed
}

/// What one read came to.
#[derive(Debug, PartialEq, Eq)]
pub enum FrameStep {
    /// The frame is still open: read again.
    More,
    /// The stream cannot be followed any further.
    Broken,
    /// The frame is complete, and this is its payload.
    Frame(Vec<u8>),
}

impl View for FrameStep {
    type V = FrameModel;

    open spec fn view(&self) -> FrameModel {
        match self {
            FrameStep::More => FrameModel::More,
            FrameStep::Broken => FrameModel::Broken,
            FrameStep::Frame(payload) => FrameModel::Frame(payload@),
        }
    }
}

/// Puts a frame together from the chunks in which it arrives.
///
/// Its model is the stream read so far in the frame that is open, and the
/// empty stream when none is.
pub struct FrameReader {
    opened: bool,
    pending: Vec<u8>,
}

impl View for FrameReader {
    type V = Seq<u8>;

    closed spec fn view(&self) -> Seq<u8> {
        if self.opened {
            seq![SENTINEL] + self.pending@
        } else {
            Seq::empty()
        }
    }
}

impl FrameReader {
    /// What holds of every reader: the payload gathered so far holds no
    /// sentinel, and there is none while no frame is open.
    pub closed spec fn well_formed(&self) -> bool {
        sentinel_free(self.pending@) && (!self.opened ==> self.pending@.len() == 0)
    }

    /// A reader with no frame open.
    pub fn new() -> (reader: FrameReader)
        ensures
            reader.well_formed(),
            reader@ == Seq::<u8>::empty(),
    {
        FrameReader { opened: false, pending: Vec::new() }
    }

    /// Forgets the frame that is open, if any.
    pub fn reset(&mut self)
        ensures
            final(self).well_formed(),
            final(self)@ == Seq::<u8>::empty(),
    {
        self.pending.clear();
        self.opened = false;
    }

    /// Takes in what one read returned.
    ///
    /// While the frame stays open the chunk joins the stream. Once the
    /// frame closes or breaks the reader is as new; bytes that follow the
    /// closing sentinel in the same chunk are dropped.
    pub fn feed(&mut self, chunk: &[u8]) -> (step: FrameStep)
        requires
            old(self).well_formed(),
        ensures
            final(self).well_formed(),
            step@ == fed(old(self)@, chunk@),
            final(self)@ == if step is More {
                old(self)@ + chunk@
            } else {
                Seq::<u8>::empty()
            },
    {
        if chunk.len() == 0 {
            self.reset();
            return FrameStep::Broken;
        }
        let mut from: usize = 0;
        if !self.opened {
            if chunk[0] != SENTINEL {
                assert((old(self)@ + chunk@)[0] == chunk@[0]);
                self.reset();
                return FrameStep::Broken;
            }
            from = 1;
        }
        let ghost stream = old(self)@ + chunk@;
        let ghost body = stream.drop_first();
        let ghost before = self.pending@;
        assert(stream[0] == SENTINEL);
        assert(body =~= before + chunk@.skip(from as int));
        let mut end: usize = from;
        while end < chunk.len() && chunk[end] != SENTINEL
            invariant
                from <= end <= chunk.len(),
                forall|j: int| from <= j < end ==> chunk@[j] != SENTINEL,
            decreases chunk.len() - end,
        {
            end = end + 1;
        }
        let ghost n: int = before.len() + end - from;
        proof {
            let run = body.take(n);
            assert forall|i: int| 0 <= i < run.len() implies run[i] != SENTINEL by {
                if i >= before.len() {
                    assert(body[i] == chunk@[i - before.len() + from]);
                }
            }
            lemma_run_length_at(body, n);
        }
        if end < chunk.len() {
            let mut payload: Vec<u8> = Vec::new();
            std::mem::swap(&mut payload, &mut self.pending);
            self.opened = false;
            let mut i: usize = from;
            while i < end
                invariant
                    from <= i <= end <= chunk.len(),
                    payload@ == before + chunk@.subrange(from as int, i as int),
                decreases end - i,
            {
                payload.push(chunk[i]);
                i = i + 1;
                assert(payload@ =~= before + chunk@.subrange(from as int, i as int));
            }
            assert(payload@ =~= body.take(n));
            FrameStep::Frame(payload)
        } else {
            self.opened = true;
            let mut i: usize = from;
            while i < end
                invariant
                    from <= i <= end,
                    end == chunk.len(),
                    self.opened,
                    forall|j: int| from <= j < end ==> chunk@[j] != SENTINEL,
                    sentinel_free(before),
                    self.pending@ == before + chunk@.subrange(from as int, i as int),
                decreases end - i,
            {
                self.pending.push(chunk[i]);
                i = i + 1;
                assert(self.pending@ =~= before + chunk@.subrange(from as int, i as int));
            }
            assert(self@ =~= stream);
            FrameStep::More
        }
    }
}

} // verus!
