//! Parsing by type: each type that can be read from XDR says how.
use vstd::prelude::*;
use vstd::utf8::{decode_utf8, valid_utf8};

use crate::encoding::pad_len;
use crate::parser::cursor::{parsed_as, spec_bytes, spec_u32, spec_u64, Cursor};
use crate::parser::primitive::{
    self, spec_array, spec_bool, spec_padding, spec_string, spec_vector, utf8_chars,
};
use crate::protocol::xdr::string_from_utf8;
use crate::rpc::{Error, Parsed};

pub use crate::encoding::ALIGNMENT;

verus! {

/// A type that can be parsed from XDR.
pub trait ToParse: Sized + View {
    /// Parsing a value from the bytes `s` at offset `at`.
    spec fn parsing(s: Seq<u8>, at: int) -> Parsed<Self::V>;

    /// Parses a value from `src`.
    fn parse(src: &mut Cursor) -> (r: Result<Self, Error>)
        requires
            old(src).wf(),
        ensures
            parsed_as(*old(src), *final(src), r, Self::parsing(old(src).bytes(), old(src).pos())),
    ;
}

/// Parses a value of type `T` from `src`.
pub fn parse<T: ToParse>(src: &mut Cursor) -> (r: Result<T, Error>)
    requires
        old(src).wf(),
    ensures
        parsed_as(*old(src), *final(src), r, T::parsing(old(src).bytes(), old(src).pos())),
{
    T::parse(src)
}

/// Skips the padding after `n` bytes of opaque data; too few bytes are an
/// `IncorrectPadding` error.
pub fn read_padding(src: &mut Cursor, n: usize) -> (r: Result<(), Error>)
    requires
        old(src).wf(),
    ensures
        parsed_as(*old(src), *final(src), r, spec_padding(old(src).bytes(), old(src).pos(), n as int)),
{
    primitive::padding(src, n)
}

impl ToParse for u32 {
    open spec fn parsing(s: Seq<u8>, at: int) -> Parsed<u32> {
        spec_u32(s, at)
    }

    fn parse(src: &mut Cursor) -> (r: Result<u32, Error>) {
        primitive::u32(src)
    }
}

impl ToParse for u64 {
    open spec fn parsing(s: Seq<u8>, at: int) -> Parsed<u64> {
        spec_u64(s, at)
    }

    fn parse(src: &mut Cursor) -> (r: Result<u64, Error>) {
        primitive::u64(src)
    }
}

impl ToParse for bool {
    open spec fn parsing(s: Seq<u8>, at: int) -> Parsed<bool> {
        spec_bool(s, at)
    }

    fn parse(src: &mut Cursor) -> (r: Result<bool, Error>) {
        primitive::bool(src)
    }
}

impl<const N: usize> ToParse for [u8; N] {
    open spec fn parsing(s: Seq<u8>, at: int) -> Parsed<Seq<u8>> {
        spec_array(s, at, N as int)
    }

    fn parse(src: &mut Cursor) -> (r: Result<[u8; N], Error>) {
        primitive::array::<N>(src)
    }
}

/// Parsing `n` consecutive `u32` values.
pub open spec fn u32_seq_parsing(s: Seq<u8>, at: int, n: nat) -> Parsed<Seq<u32>>
    decreases n,
{
    if n == 0 {
        Ok((Seq::empty(), at))
    } else {
        match u32_seq_parsing(s, at, (n - 1) as nat) {
            Ok((v, p)) => match spec_u32(s, p) {
                Ok((x, end)) => Ok((v.push(x), end)),
                Err(e) => Err(e),
            },
            Err(e) => Err(e),
        }
    }
}

/// Once parsing a sequence fails, parsing a longer one fails the same way.
proof fn lemma_u32_seq_failure(s: Seq<u8>, at: int, k: nat, m: nat)
    requires
        k <= m,
        u32_seq_parsing(s, at, k) is Err,
    ensures
        u32_seq_parsing(s, at, m) == u32_seq_parsing(s, at, k),
    decreases m,
{
    if m > k {
        lemma_u32_seq_failure(s, at, k, (m - 1) as nat);
    }
}

/// Parsing `n` values gives `n` values.
proof fn lemma_u32_seq_len(s: Seq<u8>, at: int, n: nat)
    ensures
        u32_seq_parsing(s, at, n) matches Ok((v, _)) ==> v.len() == n,
    decreases n,
{
    if n > 0 {
        lemma_u32_seq_len(s, at, (n - 1) as nat);
    }
}

/// Parses `n` consecutive `u32` values into a vector.
fn parse_u32_seq(src: &mut Cursor, n: usize) -> (r: Result<Vec<u32>, Error>)
    requires
        old(src).wf(),
    ensures
        parsed_as(*old(src), *final(src), r, u32_seq_parsing(old(src).bytes(), old(src).pos(), n as nat)),
{
    let mut out: Vec<u32> = Vec::new();
    let mut i: usize = 0;
    while i < n
        invariant
            0 <= i <= n,
            src.wf(),
            src.bytes() == old(src).bytes(),
            old(src).pos() <= src.pos(),
            u32_seq_parsing(src.bytes(), old(src).pos(), i as nat) == Ok::<(Seq<u32>, int), Error>((out@, src.pos())),
        decreases n - i,
    {
        let x = match primitive::u32(src) {
            Ok(x) => x,
            Err(e) => {
                proof {
                    assert(u32_seq_parsing(src.bytes(), old(src).pos(), (i + 1) as nat) == Err::<(Seq<u32>, int), Error>(e));
                    lemma_u32_seq_failure(src.bytes(), old(src).pos(), (i + 1) as nat, n as nat);
                }
                return Err(e);
            },
        };
        out.push(x);
        i = i + 1;
    }
    Ok(out)
}

impl<const N: usize> ToParse for [u32; N] {
    open spec fn parsing(s: Seq<u8>, at: int) -> Parsed<Seq<u32>> {
        u32_seq_parsing(s, at, N as nat)
    }

    fn parse(src: &mut Cursor) -> (r: Result<[u32; N], Error>) {
        let v = parse_u32_seq(src, N)?;
        proof {
            lemma_u32_seq_len(old(src).bytes(), old(src).pos(), N as nat);
        }
        let mut out = [0u32; N];
        let mut i: usize = 0;
        while i < N
            invariant
                0 <= i <= N,
                v@.len() == N,
                out@.len() == N,
                forall|j: int| 0 <= j < i ==> out@[j] == v@[j],
            decreases N - i,
        {
            out[i] = v[i];
            i = i + 1;
        }
        assert(out@ =~= v@);
        Ok(out)
    }
}

impl ToParse for Vec<u8> {
    open spec fn parsing(s: Seq<u8>, at: int) -> Parsed<Seq<u8>> {
        spec_vector(s, at)
    }

    fn parse(src: &mut Cursor) -> (r: Result<Vec<u8>, Error>) {
        primitive::vector(src)
    }
}

impl ToParse for Vec<u32> {
    open spec fn parsing(s: Seq<u8>, at: int) -> Parsed<Seq<u32>> {
        match spec_u32(s, at) {
            Ok((n, p)) => u32_seq_parsing(s, p, n as nat),
            Err(e) => Err(e),
        }
    }

    fn parse(src: &mut Cursor) -> (r: Result<Vec<u32>, Error>) {
        let n = primitive::u32(src)?;
        parse_u32_seq(src, n as usize)
    }
}

impl ToParse for String {
    open spec fn parsing(s: Seq<u8>, at: int) -> Parsed<Seq<char>> {
        spec_string(s, at)
    }

    fn parse(src: &mut Cursor) -> (r: Result<String, Error>) {
        primitive::string(src)
    }
}

/// Opaque data of at most `N` bytes.
#[derive(Debug, PartialEq, Eq)]
pub struct VecWithMaxLen<const N: u32>(pub Vec<u8>);

impl<const N: u32> View for VecWithMaxLen<N> {
    type V = Seq<u8>;

    open spec fn view(&self) -> Seq<u8> {
        self.0@
    }
}

/// Opaque data of at most `max` bytes; longer is `VecTooLong`.
pub open spec fn bounded_bytes(s: Seq<u8>, at: int, max: u32, too_long: Error) -> Parsed<Seq<u8>> {
    match spec_u32(s, at) {
        Ok((n, p)) => if n > max {
            Err(too_long)
        } else {
            spec_array(s, p, n as int)
        },
        Err(e) => Err(e),
    }
}

/// Reads opaque data of at most `max` bytes; longer is `too_long`.
fn read_bounded(src: &mut Cursor, max: u32, too_long: Error) -> (r: Result<Vec<u8>, Error>)
    requires
        old(src).wf(),
        !crate::rpc::is_protocol_rejection(too_long),
    ensures
        parsed_as(*old(src), *final(src), r, bounded_bytes(old(src).bytes(), old(src).pos(), max, too_long)),
{
    let size = primitive::u32(src)?;
    if size > max {
        return Err(too_long);
    }
    primitive::opaque(src, size as usize)
}

impl<const N: u32> ToParse for VecWithMaxLen<N> {
    open spec fn parsing(s: Seq<u8>, at: int) -> Parsed<Seq<u8>> {
        bounded_bytes(s, at, N, Error::VecTooLong)
    }

    fn parse(src: &mut Cursor) -> (r: Result<VecWithMaxLen<N>, Error>) {
        Ok(VecWithMaxLen(read_bounded(src, N, Error::VecTooLong)?))
    }
}

/// A string of at most `N` bytes.
#[derive(Debug, PartialEq, Eq)]
pub struct StringWithMaxLen<const N: u32>(pub String);

impl<const N: u32> View for StringWithMaxLen<N> {
    type V = Seq<char>;

    open spec fn view(&self) -> Seq<char> {
        self.0@
    }
}

impl<const N: u32> ToParse for StringWithMaxLen<N> {
    open spec fn parsing(s: Seq<u8>, at: int) -> Parsed<Seq<char>> {
        match bounded_bytes(s, at, N, Error::StringTooLong) {
            Ok((b, end)) => utf8_chars(b, end),
            Err(e) => Err(e),
        }
    }

    fn parse(src: &mut Cursor) -> (r: Result<StringWithMaxLen<N>, Error>) {
        let bytes = read_bounded(src, N, Error::StringTooLong)?;
        match string_from_utf8(bytes) {
            Some(s) => Ok(StringWithMaxLen(s)),
            None => Err(Error::IncorrectString),
        }
    }
}

impl ToParse for Option<u32> {
    open spec fn parsing(s: Seq<u8>, at: int) -> Parsed<Option<u32>> {
        primitive::spec_option_u32(s, at)
    }

    fn parse(src: &mut Cursor) -> (r: Result<Option<u32>, Error>) {
        primitive::option_u32(src)
    }
}

/// Parses optional data: a boolean, then a `T` when it is true.
pub fn option<T: ToParse>(src: &mut Cursor) -> (r: Result<Option<T>, Error>)
    requires
        old(src).wf(),
    ensures
        final(src).bytes() == old(src).bytes(),
        final(src).wf(),
        match spec_bool(old(src).bytes(), old(src).pos()) {
            Err(e) => r == Err::<Option<T>, Error>(e),
            Ok((false, p)) => r matches Ok(None) && final(src).pos() == p,
            Ok((true, p)) => match T::parsing(old(src).bytes(), p) {
                Ok((v, end)) => r matches Ok(Some(x)) && x@ == v && final(src).pos() == end,
                Err(e) => r == Err::<Option<T>, Error>(e),
            },
        },
{
    if primitive::bool(src)? {
        Ok(Some(T::parse(src)?))
    } else {
        Ok(None)
    }
}

/// Parsing `n` consecutive values of type `T`, by their views.
pub open spec fn items_parsing<T: ToParse>(s: Seq<u8>, at: int, n: nat) -> Parsed<Seq<T::V>>
    decreases n,
{
    if n == 0 {
        Ok((Seq::empty(), at))
    } else {
        match items_parsing::<T>(s, at, (n - 1) as nat) {
            Ok((v, p)) => match T::parsing(s, p) {
                Ok((x, end)) => Ok((v.push(x), end)),
                Err(e) => Err(e),
            },
            Err(e) => Err(e),
        }
    }
}

/// Parsing a counted list of values of type `T`: a `u32` count, then the
/// values one after the other.
pub open spec fn list_parsing<T: ToParse>(s: Seq<u8>, at: int) -> Parsed<Seq<T::V>> {
    match spec_u32(s, at) {
        Ok((n, p)) => items_parsing::<T>(s, p, n as nat),
        Err(e) => Err(e),
    }
}

/// Once parsing some values fails, parsing more of them fails the same way.
proof fn lemma_items_failure<T: ToParse>(s: Seq<u8>, at: int, k: nat, m: nat)
    requires
        k <= m,
        items_parsing::<T>(s, at, k) is Err,
    ensures
        items_parsing::<T>(s, at, m) == items_parsing::<T>(s, at, k),
    decreases m,
{
    if m > k {
        lemma_items_failure::<T>(s, at, k, (m - 1) as nat);
    }
}

/// The views of the values of `v`.
pub open spec fn views_of<T: View>(v: Seq<T>) -> Seq<T::V> {
    v.map_values(|x: T| x@)
}

/// Parses a counted list of values of type `T`.
pub fn list<T: ToParse>(src: &mut Cursor) -> (r: Result<Vec<T>, Error>)
    requires
        old(src).wf(),
    ensures
        final(src).bytes() == old(src).bytes(),
        final(src).wf(),
        old(src).pos() <= final(src).pos(),
        match list_parsing::<T>(old(src).bytes(), old(src).pos()) {
            Ok((v, end)) => r matches Ok(x) && views_of(x@) == v && final(src).pos() == end,
            Err(e) => r == Err::<Vec<T>, Error>(e),
        },
{
    let n = primitive::u32(src)?;
    let ghost start = src.pos();
    let mut out: Vec<T> = Vec::new();
    proof {
        assert(views_of(out@) =~= Seq::<T::V>::empty());
    }
    let mut i: u32 = 0;
    while i < n
        invariant
            0 <= i <= n,
            src.wf(),
            src.bytes() == old(src).bytes(),
            old(src).pos() <= start <= src.pos(),
            spec_u32(old(src).bytes(), old(src).pos()) == Ok::<(u32, int), Error>((n, start)),
            items_parsing::<T>(src.bytes(), start, i as nat) == Ok::<(Seq<T::V>, int), Error>((views_of(out@), src.pos())),
        decreases n - i,
    {
        let x = match T::parse(src) {
            Ok(x) => x,
            Err(e) => {
                proof {
                    assert(items_parsing::<T>(src.bytes(), start, (i + 1) as nat) == Err::<(Seq<T::V>, int), Error>(e));
                    lemma_items_failure::<T>(src.bytes(), start, (i + 1) as nat, n as nat);
                }
                return Err(e);
            },
        };
        let ghost before = out@;
        out.push(x);
        proof {
            assert(views_of(out@) =~= views_of(before).push(x@));
        }
        i = i + 1;
    }
    Ok(out)
}

} // verus!
