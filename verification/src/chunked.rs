//! Chunked transfer encoding: writing chunks, and reading a chunked body one
//! step at a time as a state machine whose reader performs the I/O.
use vstd::prelude::*;

verus! {

// ---------------------------------------------------------------- hexadecimal numbers

/// The value of an ASCII hexadecimal digit of either case.
pub open spec fn hex_digit_value(b: u8) -> Option<nat> {
    if 0x30 <= b <= 0x39 {
        Some((b - 0x30) as nat)
    } else if 0x61 <= b <= 0x66 {
        Some((b - 0x61 + 10) as nat)
    } else if 0x41 <= b <= 0x46 {
        Some((b - 0x41 + 10) as nat)
    } else {
        None
    }
}

/// The number that a sequence of hexadecimal digits denotes, if every byte is one.
pub open spec fn hex_digits_value(s: Seq<u8>) -> Option<nat>
    decreases s.len(),
{
    if s.len() == 0 {
        Some(0)
    } else {
        match (hex_digits_value(s.drop_last()), hex_digit_value(s.last())) {
            (Some(v), Some(d)) => Some(v * 16 + d),
            _ => None,
        }
    }
}

/// What `u64::from_str_radix(_, 16)` gives for the text: an optional `+`,
/// then at least one hexadecimal digit, and a value that fits in 64 bits.
pub open spec fn chunk_size_value(s: Seq<u8>) -> Option<u64> {
    let d = if s.len() > 0 && s[0] == 0x2b {
        s.drop_first()
    } else {
        s
    };
    if d.len() == 0 {
        None
    } else {
        match hex_digits_value(d) {
            Some(v) => if v <= u64::MAX {
                Some(v as u64)
            } else {
                None
            },
            None => None,
        }
    }
}

/// The uppercase hexadecimal digit of a value below 16.
pub open spec fn hex_upper_digit(d: nat) -> u8 {
    if d < 10 {
        (0x30 + d) as u8
    } else {
        (0x41 + d - 10) as u8
    }
}

/// A number in uppercase hexadecimal, as `format!("{:X}")` writes it.
pub open spec fn hex_upper(n: nat) -> Seq<u8>
    decreases n,
{
    if n < 16 {
        seq![hex_upper_digit(n)]
    } else {
        hex_upper(n / 16).push(hex_upper_digit(n % 16))
    }
}

fn hex_digit_of(b: u8) -> (r: Option<u8>)
    ensures
        r matches Some(d) ==> hex_digit_value(b) == Some(d as nat),
        r is None ==> hex_digit_value(b) is None,
{
    if 0x30 <= b && b <= 0x39 {
        Some(b - 0x30)
    } else if 0x61 <= b && b <= 0x66 {
        Some(b - 0x61 + 10)
    } else if 0x41 <= b && b <= 0x46 {
        Some(b - 0x41 + 10)
    } else {
        None
    }
}

proof fn lemma_hex_digits_value_grows(s: Seq<u8>, i: int)
    requires
        0 <= i <= s.len(),
        hex_digits_value(s) is Some,
    ensures
        hex_digits_value(s.take(i)) is Some,
        hex_digits_value(s.take(i))->0 <= hex_digits_value(s)->0,
    decreases s.len() - i,
{
    if i < s.len() {
        lemma_hex_digits_value_grows(s, i + 1);
        let t = s.take(i + 1);
        assert(t.drop_last() =~= s.take(i));
    } else {
        assert(s.take(i) =~= s);
    }
}

/// Reads the size of a chunk as `u64::from_str_radix(_, 16)` reads it.
pub fn parse_chunk_size(s: &[u8]) -> (r: Option<u64>)
    ensures
        r == chunk_size_value(s@),
{
    let n = s.len();
    let mut i: usize = 0;
    if n > 0 && s[0] == 0x2b {
        i = 1;
    }
    let ghost d = if s@.len() > 0 && s@[0] == 0x2b {
        s@.drop_first()
    } else {
        s@
    };
    assert(d =~= s@.skip(i as int));
    if i == n {
        return None;
    }
    let start = i;
    let mut v: u64 = 0;
    while i < n
        invariant
            start <= i <= n,
            n == s@.len(),
            d == s@.skip(start as int),
            d == (if s@.len() > 0 && s@[0] == 0x2b {
                s@.drop_first()
            } else {
                s@
            }),
            d.len() > 0,
            hex_digits_value(d.take(i - start)) == Some(v as nat),
        decreases n - i,
    {
        let ghost t = d.take(i - start + 1);
        assert(t.drop_last() =~= d.take(i - start));
        assert(t.last() == s@[i as int]);
        match hex_digit_of(s[i]) {
            None => {
                proof {
                    assert(hex_digits_value(t) is None);
                    if hex_digits_value(d) is Some {
                        lemma_hex_digits_value_grows(d, i - start + 1);
                    }
                }
                return None;
            },
            Some(dv) => {
                if v > (u64::MAX - dv as u64) / 16 {
                    proof {
                        let m = (u64::MAX - dv as u64) / 16;
                        assert(v * 16 + dv > u64::MAX) by (nonlinear_arith)
                            requires
                                v > m,
                                m == (u64::MAX - dv as u64) / 16,
                                dv < 16,
                        ;
                        assert(hex_digits_value(t) == Some((v * 16 + dv) as nat));
                        if hex_digits_value(d) is Some {
                            lemma_hex_digits_value_grows(d, i - start + 1);
                        }
                    }
                    return None;
                }
                v = v * 16 + dv as u64;
            },
        }
        i = i + 1;
    }
    assert(d.take(n - start) =~= d);
    Some(v)
}

// ---------------------------------------------------------------- writing chunks

/// One chunk as it is sent: its length in uppercase hexadecimal, CR LF, the
/// data and CR LF; nothing for empty data.
pub open spec fn chunk_bytes(data: Seq<u8>) -> Seq<u8> {
    if data.len() == 0 {
        seq![]
    } else {
        hex_upper(data.len()) + seq![0x0du8, 0x0au8] + data + seq![0x0du8, 0x0au8]
    }
}

/// The last chunk and the end of the body: "0" and two CR LF.
pub open spec fn last_chunk_bytes() -> Seq<u8> {
    seq![0x30u8, 0x0du8, 0x0au8, 0x0du8, 0x0au8]
}

fn push_hex_upper(out: &mut Vec<u8>, n: u64)
    ensures
        final(out)@ == old(out)@ + hex_upper(n as nat),
    decreases n,
{
    if n < 16 {
        let d = n as u8;
        out.push(if d < 10 { 0x30 + d } else { 0x41 + d - 10 });
        assert(out@ =~= old(out)@ + hex_upper(n as nat));
    } else {
        push_hex_upper(out, n / 16);
        let d = (n % 16) as u8;
        out.push(if d < 10 { 0x30 + d } else { 0x41 + d - 10 });
        assert(out@ =~= old(out)@ + hex_upper(n as nat));
    }
}

/// Appends one chunk of the data; nothing where the data is empty.
pub fn write_chunk(out: &mut Vec<u8>, data: &[u8])
    ensures
        final(out)@ == old(out)@ + chunk_bytes(data@),
{
    if data.len() == 0 {
        assert(out@ =~= old(out)@ + chunk_bytes(data@));
        return;
    }
    push_hex_upper(out, data.len() as u64);
    out.push(0x0d);
    out.push(0x0a);
    let ghost before = out@;
    let mut i: usize = 0;
    while i < data.len()
        invariant
            i <= data@.len(),
            out@ == before + data@.take(i as int),
        decreases data@.len() - i,
    {
        out.push(data[i]);
        i = i + 1;
        assert(out@ =~= before + data@.take(i as int));
    }
    assert(data@.take(data@.len() as int) =~= data@);
    out.push(0x0d);
    out.push(0x0a);
    assert(out@ =~= old(out)@ + chunk_bytes(data@));
}

/// Appends the last chunk, which ends the body.
pub fn write_last_chunk(out: &mut Vec<u8>)
    ensures
        final(out)@ == old(out)@ + last_chunk_bytes(),
{
    out.push(0x30);
    out.push(0x0d);
    out.push(0x0a);
    out.push(0x0d);
    out.push(0x0a);
    assert(out@ =~= old(out)@ + last_chunk_bytes());
}


// ---------------------------------------------------------------- reading chunks

/// Where a reader of a chunked body stands. The parameter is the type of the
/// size digits read so far: `Vec<u8>` in executable code, `Seq<u8>` in
/// specifications.
#[derive(Debug)]
pub enum ChunkedReadState<B = Vec<u8>> {
    /// Reading the size line of a chunk; the bytes of the size so far.
    Size(B),
    /// The size line's CR was read, its LF must follow; the bytes of the size.
    SizeLf(B),
    /// Inside a chunk; this many data bytes remain.
    Data(u64),
    /// A chunk's data ended; a CR must follow.
    DataCr,
    /// A chunk's CR was read; an LF must follow.
    DataLf,
    /// The last chunk's size line was read; a CR must follow.
    EndCr,
    /// The CR after the last chunk was read; an LF must follow.
    EndLf,
    /// The body has ended.
    Done,
}

impl View for ChunkedReadState<Vec<u8>> {
    type V = ChunkedReadState<Seq<u8>>;

    open spec fn view(&self) -> ChunkedReadState<Seq<u8>> {
        match self {
            ChunkedReadState::Size(d) => ChunkedReadState::Size(d@),
            ChunkedReadState::SizeLf(d) => ChunkedReadState::SizeLf(d@),
            ChunkedReadState::Data(n) => ChunkedReadState::Data(*n),
            ChunkedReadState::DataCr => ChunkedReadState::DataCr,
            ChunkedReadState::DataLf => ChunkedReadState::DataLf,
            ChunkedReadState::EndCr => ChunkedReadState::EndCr,
            ChunkedReadState::EndLf => ChunkedReadState::EndLf,
            ChunkedReadState::Done => ChunkedReadState::Done,
        }
    }
}

/// Why a chunked body cannot be read.
#[derive(Debug, Clone, Copy, PartialEq, Eq, Structural)]
pub enum ChunkedError {
    /// The size line is longer than any size of 64 bits.
    SizeTooLong,
    /// The size line is not a hexadecimal number of 64 bits ended by CR LF.
    SizeMalformed,
    /// A chunk, or the body, is not ended by CR LF.
    TrailerMalformed,
    /// The connection ended inside a chunk.
    UnexpectedEof,
}

/// What the reader must do next.
#[derive(Debug, Clone, Copy, PartialEq, Eq, Structural)]
pub enum ChunkedNeed {
    /// Read one byte and hand it to `chunked_byte`.
    Byte,
    /// Read at most this many data bytes and hand their number to `chunked_data`.
    Data(u64),
    /// The body has ended.
    End,
}

/// The size line may hold at most 16 bytes before its CR.
pub open spec fn size_line_full(d: Seq<u8>) -> bool {
    d.len() >= 17
}

/// What the reader must do in a state, or the error where the size line is too long.
pub open spec fn need_of(s: ChunkedReadState<Seq<u8>>) -> Result<ChunkedNeed, ChunkedError> {
    match s {
        ChunkedReadState::Size(d) => if size_line_full(d) {
            Err(ChunkedError::SizeTooLong)
        } else {
            Ok(ChunkedNeed::Byte)
        },
        ChunkedReadState::Data(n) => Ok(ChunkedNeed::Data(n)),
        ChunkedReadState::Done => Ok(ChunkedNeed::End),
        _ => Ok(ChunkedNeed::Byte),
    }
}

/// The state after a byte is read in a state that reads single bytes.
pub open spec fn byte_step(s: ChunkedReadState<Seq<u8>>, b: u8) -> Result<ChunkedReadState<Seq<u8>>, ChunkedError> {
    match s {
        ChunkedReadState::Size(d) => if size_line_full(d) {
            Err(ChunkedError::SizeTooLong)
        } else if b == 0x0d {
            Ok(ChunkedReadState::SizeLf(d))
        } else {
            Ok(ChunkedReadState::Size(d.push(b)))
        },
        ChunkedReadState::SizeLf(d) => if b != 0x0a || d.len() == 0 {
            Err(ChunkedError::SizeMalformed)
        } else {
            match chunk_size_value(d) {
                None => Err(ChunkedError::SizeMalformed),
                Some(n) => if n == 0 {
                    Ok(ChunkedReadState::EndCr)
                } else {
                    Ok(ChunkedReadState::Data(n))
                },
            }
        },
        ChunkedReadState::DataCr => if b == 0x0d {
            Ok(ChunkedReadState::DataLf)
        } else {
            Err(ChunkedError::TrailerMalformed)
        },
        ChunkedReadState::DataLf => if b == 0x0a {
            Ok(ChunkedReadState::Size(seq![]))
        } else {
            Err(ChunkedError::TrailerMalformed)
        },
        ChunkedReadState::EndCr => if b == 0x0d {
            Ok(ChunkedReadState::EndLf)
        } else {
            Err(ChunkedError::TrailerMalformed)
        },
        ChunkedReadState::EndLf => if b == 0x0a {
            Ok(ChunkedReadState::Done)
        } else {
            Err(ChunkedError::TrailerMalformed)
        },
        _ => Ok(s),
    }
}

/// The state after `count` data bytes of the chunk were read; none read
/// means the connection ended inside the chunk.
pub open spec fn data_step(n: u64, count: u64) -> Result<ChunkedReadState<Seq<u8>>, ChunkedError> {
    if count == 0 {
        Err(ChunkedError::UnexpectedEof)
    } else if n - count == 0 {
        Ok(ChunkedReadState::DataCr)
    } else {
        Ok(ChunkedReadState::Data((n - count) as u64))
    }
}

/// What the reader must do next in the state.
pub fn chunked_need(s: &ChunkedReadState) -> (r: Result<ChunkedNeed, ChunkedError>)
    ensures
        r == need_of(s@),
{
    match s {
        ChunkedReadState::Size(d) => if d.len() >= 17 {
            Err(ChunkedError::SizeTooLong)
        } else {
            Ok(ChunkedNeed::Byte)
        },
        ChunkedReadState::Data(n) => Ok(ChunkedNeed::Data(*n)),
        ChunkedReadState::Done => Ok(ChunkedNeed::End),
        _ => Ok(ChunkedNeed::Byte),
    }
}

/// The state after the byte was read.
pub fn chunked_byte(s: ChunkedReadState, b: u8) -> (r: Result<ChunkedReadState, ChunkedError>)
    requires
        !(s is Data) && !(s is Done),
    ensures
        r matches Ok(t) ==> byte_step(s@, b) == Ok::<ChunkedReadState<Seq<u8>>, ChunkedError>(t@),
        r matches Err(e) ==> byte_step(s@, b) == Err::<ChunkedReadState<Seq<u8>>, ChunkedError>(e),
{
    match s {
        ChunkedReadState::Size(mut d) => {
            if d.len() >= 17 {
                Err(ChunkedError::SizeTooLong)
            } else if b == 0x0d {
                Ok(ChunkedReadState::SizeLf(d))
            } else {
                d.push(b);
                Ok(ChunkedReadState::Size(d))
            }
        },
        ChunkedReadState::SizeLf(d) => {
            if b != 0x0a || d.len() == 0 {
                Err(ChunkedError::SizeMalformed)
            } else {
                match parse_chunk_size(d.as_slice()) {
                    None => Err(ChunkedError::SizeMalformed),
                    Some(n) => if n == 0 {
                        Ok(ChunkedReadState::EndCr)
                    } else {
                        Ok(ChunkedReadState::Data(n))
                    },
                }
            }
        },
        ChunkedReadState::DataCr => if b == 0x0d {
            Ok(ChunkedReadState::DataLf)
        } else {
            Err(ChunkedError::TrailerMalformed)
        },
        ChunkedReadState::DataLf => if b == 0x0a {
            let r = ChunkedReadState::Size(Vec::new());
            assert(r@ == ChunkedReadState::<Seq<u8>>::Size(seq![]));
            Ok(r)
        } else {
            Err(ChunkedError::TrailerMalformed)
        },
        ChunkedReadState::EndCr => if b == 0x0d {
            Ok(ChunkedReadState::EndLf)
        } else {
            Err(ChunkedError::TrailerMalformed)
        },
        ChunkedReadState::EndLf => if b == 0x0a {
            Ok(ChunkedReadState::Done)
        } else {
            Err(ChunkedError::TrailerMalformed)
        },
        _ => Ok(s),
    }
}

/// The state after `count` data bytes of the current chunk were read.
pub fn chunked_data(s: &ChunkedReadState, count: u64) -> (r: Result<ChunkedReadState, ChunkedError>)
    requires
        s matches ChunkedReadState::Data(n) && count <= *n,
    ensures
        r matches Ok(t) ==> data_step(s->Data_0, count) == Ok::<ChunkedReadState<Seq<u8>>, ChunkedError>(t@),
        r matches Err(e) ==> data_step(s->Data_0, count) == Err::<ChunkedReadState<Seq<u8>>, ChunkedError>(e),
{
    let n = match s {
        ChunkedReadState::Data(n) => *n,
        _ => 0,
    };
    if count == 0 {
        Err(ChunkedError::UnexpectedEof)
    } else if n - count == 0 {
        Ok(ChunkedReadState::DataCr)
    } else {
        Ok(ChunkedReadState::Data(n - count))
    }
}


// ---------------------------------------------------------------- reading back what was written

/// The state and the data delivered after the bytes arrive one by one from
/// state `s`, or the first error; reading stops once the body has ended.
pub open spec fn feed(
    s: ChunkedReadState<Seq<u8>>,
    bytes: Seq<u8>,
    out: Seq<u8>,
) -> Result<(ChunkedReadState<Seq<u8>>, Seq<u8>), ChunkedError>
    decreases bytes.len(),
{
    if bytes.len() == 0 || s is Done {
        Ok((s, out))
    } else {
        match s {
            ChunkedReadState::Data(n) => match data_step(n, 1) {
                Ok(t) => feed(t, bytes.drop_first(), out.push(bytes[0])),
                Err(e) => Err(e),
            },
            _ => match need_of(s) {
                Err(e) => Err(e),
                Ok(_) => match byte_step(s, bytes[0]) {
                    Ok(t) => feed(t, bytes.drop_first(), out),
                    Err(e) => Err(e),
                },
            },
        }
    }
}

proof fn lemma_feed_append(
    s: ChunkedReadState<Seq<u8>>,
    a: Seq<u8>,
    b: Seq<u8>,
    out: Seq<u8>,
)
    ensures
        feed(s, a + b, out) == match feed(s, a, out) {
            Err(e) => Err(e),
            Ok((t, o)) => if t is Done {
                Ok((t, o))
            } else {
                feed(t, b, o)
            },
        },
    decreases a.len(),
{
    if a.len() == 0 {
        assert(a + b =~= b);
    } else if !(s is Done) {
        assert((a + b).drop_first() =~= a.drop_first() + b);
        assert((a + b)[0] == a[0]);
        match s {
            ChunkedReadState::Data(n) => {
                if let Ok(t) = data_step(n, 1) {
                    lemma_feed_append(t, a.drop_first(), b, out.push(a[0]));
                }
            },
            _ => {
                if let Ok(_) = need_of(s) {
                    if let Ok(t) = byte_step(s, a[0]) {
                        lemma_feed_append(t, a.drop_first(), b, out);
                    }
                }
            },
        }
    }
}

/// Powers of sixteen.
pub open spec fn pow16(k: nat) -> nat
    decreases k,
{
    if k == 0 {
        1
    } else {
        16 * pow16((k - 1) as nat)
    }
}

proof fn lemma_hex_upper_digit(d: nat)
    requires
        d < 16,
    ensures
        hex_digit_value(hex_upper_digit(d)) == Some(d),
        hex_upper_digit(d) != 0x0du8,
        hex_upper_digit(d) != 0x2bu8,
{
}

#[verifier::spinoff_prover]
proof fn lemma_hex_upper_facts(n: nat, k: nat)
    requires
        n < pow16(k),
    ensures
        hex_upper(n).len() <= k || (k == 0),
        hex_upper(n).len() >= 1,
        hex_digits_value(hex_upper(n)) == Some(n),
        forall|i: int| 0 <= i < hex_upper(n).len() ==> hex_digit_value(#[trigger] hex_upper(n)[i]) is Some,
        forall|i: int| 0 <= i < hex_upper(n).len() ==> #[trigger] hex_upper(n)[i] != 0x0du8,
        hex_upper(n)[0] != 0x2bu8,
    decreases n,
{
    let h = hex_upper(n);
    if n < 16 {
        lemma_hex_upper_digit(n);
        assert(h =~= seq![hex_upper_digit(n)]);
        assert(h.drop_last() =~= Seq::<u8>::empty());
        assert(hex_digits_value(h.drop_last()) == Some(0nat));
        assert(h.last() == hex_upper_digit(n));
        assert(hex_digits_value(h) == Some(0nat * 16 + n));
    } else {
        let p = hex_upper(n / 16);
        let d = n % 16;
        lemma_hex_upper_digit(d);
        if k > 0 {
            assert(n / 16 < pow16((k - 1) as nat)) by (nonlinear_arith)
                requires
                    n < pow16(k),
                    pow16(k) == 16 * pow16((k - 1) as nat),
            ;
            lemma_hex_upper_facts(n / 16, (k - 1) as nat);
        } else {
            assert(false);
        }
        assert(h == p.push(hex_upper_digit(d)));
        assert(h.drop_last() =~= p);
        assert(h.last() == hex_upper_digit(d));
        assert((n / 16) * 16 + d == n) by (nonlinear_arith)
            requires
                d == n % 16,
        ;
        assert(hex_digits_value(h) == Some((n / 16) * 16 + d));
        assert forall|i: int| 0 <= i < h.len() implies hex_digit_value(#[trigger] h[i]) is Some && h[i] != 0x0du8 by {
            if i < p.len() {
                assert(h[i] == p[i]);
            }
        }
        assert(h[0] == p[0]);
    }
}

proof fn lemma_feed_digits(prefix: Seq<u8>, w: Seq<u8>, out: Seq<u8>)
    requires
        prefix.len() + w.len() <= 17,
        forall|i: int| 0 <= i < w.len() ==> #[trigger] w[i] != 0x0du8,
    ensures
        feed(ChunkedReadState::Size(prefix), w, out) == Ok::<(ChunkedReadState<Seq<u8>>, Seq<u8>), ChunkedError>(
            (ChunkedReadState::Size(prefix + w), out),
        ),
    decreases w.len(),
{
    if w.len() == 0 {
        assert(prefix + w =~= prefix);
    } else {
        assert(prefix.push(w[0]) + w.drop_first() =~= prefix + w);
        assert forall|i: int| 0 <= i < w.drop_first().len() implies #[trigger] w.drop_first()[i] != 0x0du8 by {
            assert(w.drop_first()[i] == w[i + 1]);
        }
        lemma_feed_digits(prefix.push(w[0]), w.drop_first(), out);
    }
}

proof fn lemma_feed_data(m: u64, data: Seq<u8>, out: Seq<u8>)
    requires
        data.len() == m,
        m > 0,
    ensures
        feed(ChunkedReadState::Data(m), data, out) == Ok::<(ChunkedReadState<Seq<u8>>, Seq<u8>), ChunkedError>(
            (ChunkedReadState::DataCr, out + data),
        ),
    decreases data.len(),
{
    if m == 1 {
        assert(data.drop_first() =~= Seq::<u8>::empty());
        assert(out.push(data[0]) =~= out + data);
        assert(data_step(m, 1) == Ok::<ChunkedReadState<Seq<u8>>, ChunkedError>(ChunkedReadState::DataCr));
        assert(feed(ChunkedReadState::DataCr, data.drop_first(), out.push(data[0])) == Ok::<
            (ChunkedReadState<Seq<u8>>, Seq<u8>),
            ChunkedError,
        >((ChunkedReadState::DataCr, out.push(data[0]))));
    } else {
        assert(data_step(m, 1) == Ok::<ChunkedReadState<Seq<u8>>, ChunkedError>(
            ChunkedReadState::Data((m - 1) as u64),
        ));
        lemma_feed_data((m - 1) as u64, data.drop_first(), out.push(data[0]));
        assert(out.push(data[0]) + data.drop_first() =~= out + data);
    }
}

proof fn lemma_feed_chunk(data: Seq<u8>, out: Seq<u8>)
    requires
        data.len() <= u64::MAX,
    ensures
        feed(ChunkedReadState::Size(seq![]), chunk_bytes(data), out) == Ok::<
            (ChunkedReadState<Seq<u8>>, Seq<u8>),
            ChunkedError,
        >((ChunkedReadState::Size(seq![]), out + data)),
{
    let empty = Seq::<u8>::empty();
    if data.len() == 0 {
        assert(out + data =~= out);
        assert(chunk_bytes(data) =~= empty);
        return;
    }
    let n = data.len();
    let h = hex_upper(n);
    assert(pow16(16) == 18446744073709551616nat) by {
        reveal_with_fuel(pow16, 17);
    }
    lemma_hex_upper_facts(n, 16);
    let crlf = seq![0x0du8, 0x0au8];
    // the size line
    lemma_feed_digits(empty, h, out);
    assert(empty + h =~= h);
    assert(chunk_size_value(h) == Some(n as u64));
    lemma_feed_append(ChunkedReadState::Size(empty), h, crlf, out);
    assert(crlf.drop_first() =~= seq![0x0au8]);
    assert(seq![0x0au8].drop_first() =~= empty);
    assert(feed(ChunkedReadState::Data(n as u64), empty, out) == Ok::<
        (ChunkedReadState<Seq<u8>>, Seq<u8>),
        ChunkedError,
    >((ChunkedReadState::Data(n as u64), out)));
    assert(byte_step(ChunkedReadState::SizeLf(h), 0x0au8) == Ok::<ChunkedReadState<Seq<u8>>, ChunkedError>(
        ChunkedReadState::Data(n as u64),
    ));
    assert(feed(ChunkedReadState::SizeLf(h), seq![0x0au8], out) == Ok::<
        (ChunkedReadState<Seq<u8>>, Seq<u8>),
        ChunkedError,
    >((ChunkedReadState::Data(n as u64), out)));
    assert(feed(ChunkedReadState::Size(h), crlf, out) == Ok::<
        (ChunkedReadState<Seq<u8>>, Seq<u8>),
        ChunkedError,
    >((ChunkedReadState::Data(n as u64), out)));
    assert(feed(ChunkedReadState::Size(empty), h + crlf, out) == Ok::<
        (ChunkedReadState<Seq<u8>>, Seq<u8>),
        ChunkedError,
    >((ChunkedReadState::Data(n as u64), out)));
    // the data
    lemma_feed_append(ChunkedReadState::Size(empty), h + crlf, data, out);
    lemma_feed_data(n as u64, data, out);
    // the chunk's end
    let od = out + data;
    lemma_feed_append(ChunkedReadState::Size(empty), h + crlf + data, crlf, out);
    assert(feed(ChunkedReadState::Size(empty), empty, od) == Ok::<(ChunkedReadState<Seq<u8>>, Seq<u8>), ChunkedError>(
        (ChunkedReadState::Size(empty), od),
    ));
    assert(feed(ChunkedReadState::DataLf, seq![0x0au8], od) == Ok::<(ChunkedReadState<Seq<u8>>, Seq<u8>), ChunkedError>(
        (ChunkedReadState::Size(empty), od),
    ));
    assert(feed(ChunkedReadState::DataCr, crlf, od) == Ok::<(ChunkedReadState<Seq<u8>>, Seq<u8>), ChunkedError>(
        (ChunkedReadState::Size(empty), od),
    ));
    assert(chunk_bytes(data) =~= h + crlf + data + crlf);
}

proof fn lemma_feed_last_chunk(out: Seq<u8>)
    ensures
        feed(ChunkedReadState::Size(seq![]), last_chunk_bytes(), out) == Ok::<
            (ChunkedReadState<Seq<u8>>, Seq<u8>),
            ChunkedError,
        >((ChunkedReadState::Done, out)),
{
    let empty = Seq::<u8>::empty();
    let last = last_chunk_bytes();
    assert(empty.push(0x30u8) =~= seq![0x30u8]);
    assert(seq![0x30u8].drop_first() =~= empty);
    assert(hex_digits_value(seq![0x30u8]) == Some(0nat)) by {
        assert(seq![0x30u8].drop_last() =~= empty);
        assert(hex_digits_value(empty) == Some(0nat));
        assert(seq![0x30u8].last() == 0x30u8);
    }
    assert(chunk_size_value(seq![0x30u8]) == Some(0u64));
    let zero = seq![0x30u8];
    let t4 = seq![0x0au8];
    let t3 = seq![0x0du8, 0x0au8];
    let t2 = seq![0x0au8, 0x0du8, 0x0au8];
    let t1 = seq![0x0du8, 0x0au8, 0x0du8, 0x0au8];
    assert(t4.drop_first() =~= empty);
    assert(t3.drop_first() =~= t4);
    assert(t2.drop_first() =~= t3);
    assert(t1.drop_first() =~= t2);
    assert(last.drop_first() =~= t1);
    assert(feed(ChunkedReadState::Done, empty, out) == Ok::<(ChunkedReadState<Seq<u8>>, Seq<u8>), ChunkedError>(
        (ChunkedReadState::Done, out),
    ));
    assert(feed(ChunkedReadState::EndLf, t4, out) == Ok::<(ChunkedReadState<Seq<u8>>, Seq<u8>), ChunkedError>(
        (ChunkedReadState::Done, out),
    ));
    assert(feed(ChunkedReadState::EndCr, t3, out) == Ok::<(ChunkedReadState<Seq<u8>>, Seq<u8>), ChunkedError>(
        (ChunkedReadState::Done, out),
    ));
    assert(byte_step(ChunkedReadState::SizeLf(zero), 0x0au8) == Ok::<ChunkedReadState<Seq<u8>>, ChunkedError>(
        ChunkedReadState::EndCr,
    ));
    assert(feed(ChunkedReadState::SizeLf(zero), t2, out) == Ok::<(ChunkedReadState<Seq<u8>>, Seq<u8>), ChunkedError>(
        (ChunkedReadState::Done, out),
    ));
    assert(feed(ChunkedReadState::Size(zero), t1, out) == Ok::<(ChunkedReadState<Seq<u8>>, Seq<u8>), ChunkedError>(
        (ChunkedReadState::Done, out),
    ));
}

/// Reading back a chunked body: a chunk of data followed by the last chunk,
/// read from the start of a body, ends the body and delivers the data.
pub proof fn lemma_chunk_round_trip(data: Seq<u8>)
    requires
        0 < data.len() <= u64::MAX,
    ensures
        feed(
            ChunkedReadState::Size(seq![]),
            chunk_bytes(data) + last_chunk_bytes(),
            seq![],
        ) == Ok::<(ChunkedReadState<Seq<u8>>, Seq<u8>), ChunkedError>((ChunkedReadState::Done, data)),
{
    let empty = Seq::<u8>::empty();
    lemma_feed_chunk(data, empty);
    assert(empty + data =~= data);
    lemma_feed_last_chunk(data);
    lemma_feed_append(ChunkedReadState::Size(empty), chunk_bytes(data), last_chunk_bytes(), empty);
}

/// The bytes of a chunked body that sends the pieces one chunk each, before
/// its last chunk.
pub open spec fn chunks_bytes(pieces: Seq<Seq<u8>>) -> Seq<u8>
    decreases pieces.len(),
{
    if pieces.len() == 0 {
        seq![]
    } else {
        chunks_bytes(pieces.drop_last()) + chunk_bytes(pieces.last())
    }
}

/// The pieces one after the other.
pub open spec fn joined(pieces: Seq<Seq<u8>>) -> Seq<u8>
    decreases pieces.len(),
{
    if pieces.len() == 0 {
        seq![]
    } else {
        joined(pieces.drop_last()) + pieces.last()
    }
}

proof fn lemma_feed_chunks(pieces: Seq<Seq<u8>>)
    requires
        forall|i: int| 0 <= i < pieces.len() ==> (#[trigger] pieces[i]).len() <= u64::MAX,
    ensures
        feed(ChunkedReadState::Size(seq![]), chunks_bytes(pieces), seq![]) == Ok::<
            (ChunkedReadState<Seq<u8>>, Seq<u8>),
            ChunkedError,
        >((ChunkedReadState::Size(seq![]), joined(pieces))),
    decreases pieces.len(),
{
    if pieces.len() > 0 {
        let p = pieces.drop_last();
        assert forall|i: int| 0 <= i < p.len() implies (#[trigger] p[i]).len() <= u64::MAX by {
            assert(p[i] == pieces[i]);
        }
        lemma_feed_chunks(p);
        assert(pieces[pieces.len() - 1].len() <= u64::MAX);
        lemma_feed_chunk(pieces.last(), joined(p));
        lemma_feed_append(ChunkedReadState::Size(seq![]), chunks_bytes(p), chunk_bytes(pieces.last()), seq![]);
    }
}

/// Reading back a whole chunked body: the chunks that `write_chunk` writes of
/// the pieces, one after the other, and then what `write_last_chunk` writes,
/// read from the start of a body, end the body and deliver the pieces joined.
pub proof fn lemma_chunked_body_round_trip(pieces: Seq<Seq<u8>>)
    requires
        forall|i: int| 0 <= i < pieces.len() ==> (#[trigger] pieces[i]).len() <= u64::MAX,
    ensures
        feed(ChunkedReadState::Size(seq![]), chunks_bytes(pieces) + last_chunk_bytes(), seq![]) == Ok::<
            (ChunkedReadState<Seq<u8>>, Seq<u8>),
            ChunkedError,
        >((ChunkedReadState::Done, joined(pieces))),
{
    lemma_feed_chunks(pieces);
    lemma_feed_last_chunk(joined(pieces));
    lemma_feed_append(ChunkedReadState::Size(seq![]), chunks_bytes(pieces), last_chunk_bytes(), seq![]);
}

} // verus!
