use vstd::prelude::*;

verus! {

#[verifier::external_type_specification]
#[verifier::external_body]
pub struct ExIoError(std::io::Error);

/// Every buffer handed to a sink so far, in order, with the sink's answer.
pub type History = Seq<(Seq<u8>, Result<(), std::io::Error>)>;

/// A destination for rendered lines: a console, a file, a buffer.
///
/// The library hands each sink the bytes of a line and passes on what the
/// sink answered. Any `Output` becomes a sink through `WriterSink`.
pub trait Sink {
    /// Every write this sink was asked for, with its answer.
    spec fn history(&self) -> History;

    /// Writes all of `buf`, or fails with an I/O error. Either way the
    /// request and its answer are added to the history.
    fn write_all(&mut self, buf: &[u8]) -> (r: Result<(), std::io::Error>)
        ensures
            final(self).history() == old(self).history().push((buf@, r)),
    ;
}

/// The bytes a sink accepted: the buffers of its history that it answered
/// `Ok` to, in order.
pub open spec fn accepted_bytes(h: History) -> Seq<u8>
    decreases h.len(),
{
    if h.len() == 0 {
        Seq::empty()
    } else if h.last().1 is Ok {
        accepted_bytes(h.drop_last()) + h.last().0
    } else {
        accepted_bytes(h.drop_last())
    }
}

/// A sink that keeps every line in memory and never fails.
pub struct MemorySink {
    bytes: Vec<u8>,
    writes: Ghost<History>,
}

impl MemorySink {
    #[verifier::type_invariant]
    spec fn well_formed(&self) -> bool {
        &&& self.bytes@ == accepted_bytes(self.writes@)
        &&& forall|i: int| 0 <= i < self.writes@.len() ==> (#[trigger] self.writes@[i]).1 is Ok
    }

    /// The bytes written so far.
    pub closed spec fn spec_contents(&self) -> Seq<u8> {
        self.bytes@
    }

    pub fn new() -> (r: Self)
        ensures
            r.history() == Seq::<(Seq<u8>, Result<(), std::io::Error>)>::empty(),
            r.spec_contents() == Seq::<u8>::empty(),
    {
        MemorySink { bytes: Vec::new(), writes: Ghost(Seq::empty()) }
    }

    /// A copy of the bytes written so far: those of every write, in order.
    pub fn contents(&self) -> (r: Vec<u8>)
        ensures
            r@ == self.spec_contents(),
            r@ == accepted_bytes(self.history()),
            forall|i: int| 0 <= i < self.history().len() ==> (#[trigger] self.history()[i]).1 is Ok,
    {
        proof {
            use_type_invariant(self);
        }
        let r = self.bytes.clone();
        assert(r@ =~= self.bytes@);
        r
    }
}

impl Sink for MemorySink {
    closed spec fn history(&self) -> History {
        self.writes@
    }

    fn write_all(&mut self, buf: &[u8]) -> (r: Result<(), std::io::Error>) {
        proof {
            use_type_invariant(&*self);
        }
        let ghost before = self.writes@;
        let mut bytes = self.bytes.clone();
        assert(bytes@ =~= accepted_bytes(before));
        let mut i: usize = 0;
        while i < buf.len()
            invariant
                i <= buf@.len(),
                bytes@ == accepted_bytes(before) + buf@.subrange(0, i as int),
            decreases buf@.len() - i,
        {
            bytes.push(buf[i]);
            assert(buf@.subrange(0, i + 1) =~= buf@.subrange(0, i as int).push(buf@[i as int]));
            i = i + 1;
        }
        assert(buf@.subrange(0, buf@.len() as int) =~= buf@);
        let r: Result<(), std::io::Error> = Ok(());
        let ghost after = before.push((buf@, r));
        assert(after.drop_last() =~= before);
        *self = MemorySink { bytes, writes: Ghost(after) };
        r
    }
}

/// Where bytes can be written: stdout, a file, a socket. The caller
/// implements it, most often by forwarding to `std::io::Write::write_all`.
pub trait Output {
    /// Writes all of `buf`, or fails with an I/O error.
    fn write_bytes(&mut self, buf: &[u8]) -> Result<(), std::io::Error>;
}

/// A sink that hands every line to an `Output` and keeps its answers.
pub struct WriterSink<W: Output> {
    writer: W,
    writes: Ghost<History>,
}

impl<W: Output> WriterSink<W> {
    pub fn new(writer: W) -> (r: Self)
        ensures
            r.history() == Seq::<(Seq<u8>, Result<(), std::io::Error>)>::empty(),
    {
        WriterSink { writer, writes: Ghost(Seq::empty()) }
    }
}

impl<W: Output> Sink for WriterSink<W> {
    closed spec fn history(&self) -> History {
        self.writes@
    }

    fn write_all(&mut self, buf: &[u8]) -> (r: Result<(), std::io::Error>) {
        let r = self.writer.write_bytes(buf);
        self.writes = Ghost(self.writes@.push((buf@, r)));
        r
    }
}

} // verus!
