//! Byte layouts that are read back as they were written: integers with the lowest
//! byte first, byte arrays as they are, lists behind a count of two bytes.
use vstd::prelude::*;

use crate::base::Fault;
use crate::blob::append;

verus! {

/// Values with a byte layout. What is read and written is spoken of through the
/// model of a value; a value can be written when its model fits the layout.
pub trait Strict: Sized {
    /// What the bytes tell of a value.
    type Model;

    spec fn model(&self) -> Self::Model;

    spec fn fits(m: Self::Model) -> bool;

    spec fn written(m: Self::Model) -> Seq<u8>;

    /// The value at the front of some bytes and how many of them it takes, or what is
    /// wrong with them.
    spec fn read(s: Seq<u8>) -> Result<(Self::Model, nat), Fault>;

    /// What was written is read back, whatever follows it.
    proof fn law_reads_back(m: Self::Model, rest: Seq<u8>)
        requires
            Self::fits(m),
        ensures
            Self::read(Self::written(m) + rest) == Ok::<_, Fault>((m, Self::written(m).len())),
    ;

    /// No more is read than is there.
    proof fn law_reads_within(s: Seq<u8>)
        ensures
            Self::read(s) matches Ok(t) ==> t.1 <= s.len(),
    ;

    /// Writes the value, if it fits.
    fn strict_encode(&self) -> (r: Option<Vec<u8>>)
        ensures
            match r {
                Some(bytes) => Self::fits(self.model()) && bytes@ == Self::written(self.model()),
                None => !Self::fits(self.model()),
            },
    ;

    /// Reads the value at a position and says where it ends, or what is wrong.
    fn strict_decode(bytes: &Vec<u8>, pos: usize) -> (r: Result<(Self, usize), Fault>)
        requires
            pos <= bytes.len(),
        ensures
            match r {
                Ok(t) => {
                    &&& pos <= t.1 <= bytes.len()
                    &&& Self::read(bytes@.skip(pos as int)) == Ok::<_, Fault>(
                        (t.0.model(), (t.1 - pos) as nat),
                    )
                },
                Err(e) => Self::read(bytes@.skip(pos as int)) == Err::<(Self::Model, nat), _>(e),
            },
    ;
}

/// The lowest `n` bytes of a number, lowest first.
pub open spec fn low_bytes(x: nat, n: nat) -> Seq<u8>
    decreases n,
{
    if n == 0 {
        Seq::empty()
    } else {
        seq![(x % 256) as u8] + low_bytes(x / 256, (n - 1) as nat)
    }
}

/// The number whose bytes are given, lowest first.
pub open spec fn number(s: Seq<u8>) -> nat
    decreases s.len(),
{
    if s.len() == 0 {
        0
    } else {
        s[0] as nat + 256 * number(s.skip(1))
    }
}

/// 256 to the power `n`.
pub open spec fn limit(n: nat) -> nat
    decreases n,
{
    if n == 0 {
        1
    } else {
        256 * limit((n - 1) as nat)
    }
}

proof fn lemma_low_bytes(x: nat, n: nat)
    requires
        x < limit(n),
    ensures
        low_bytes(x, n).len() == n,
        number(low_bytes(x, n)) == x,
    decreases n,
{
    if n > 0 {
        let rest = low_bytes(x / 256, (n - 1) as nat);
        lemma_low_bytes(x / 256, (n - 1) as nat);
        assert(low_bytes(x, n).skip(1) =~= rest);
    }
}

proof fn lemma_number_bound(s: Seq<u8>)
    ensures
        number(s) < limit(s.len()),
    decreases s.len(),
{
    if s.len() > 0 {
        lemma_number_bound(s.skip(1));
    }
}

pub proof fn lemma_limits()
    ensures
        limit(1) == 0x100,
        limit(2) == 0x1_0000,
        limit(4) == 0x1_0000_0000,
        limit(8) == 0x1_0000_0000_0000_0000,
        limit(16) == 0x1_0000_0000_0000_0000_0000_0000_0000_0000,
{
    reveal_with_fuel(limit, 17);
}

/// Writes the lowest `n` bytes of a number.
pub fn write_number(x: u128, n: usize) -> (r: Vec<u8>)
    requires
        x < limit(n as nat),
    ensures
        r@ == low_bytes(x as nat, n as nat),
{
    let mut out: Vec<u8> = Vec::new();
    let mut left: u128 = x;
    let mut i: usize = 0;
    while i < n
        invariant
            i <= n,
            low_bytes(x as nat, n as nat) == out@ + low_bytes(left as nat, (n - i) as nat),
        decreases n - i,
    {
        let low: u8 = (left % 256) as u8;
        let ghost before = out@;
        let ghost tail = low_bytes(left as nat / 256, (n - i - 1) as nat);
        out.push(low);
        assert(before + (seq![low] + tail) =~= out@ + tail);
        left = left / 256;
        i = i + 1;
    }
    assert(out@ + low_bytes(left as nat, 0) =~= out@);
    out
}

/// Reads a number of `n` bytes at a position.
pub fn read_number(bytes: &Vec<u8>, pos: usize, n: usize) -> (r: u128)
    requires
        pos + n <= bytes.len(),
        n <= 16,
    ensures
        r == number(bytes@.skip(pos as int).take(n as int)),
        r < limit(n as nat),
{
    let ghost all = bytes@.skip(pos as int).take(n as int);
    let mut value: u128 = 0;
    let mut i: usize = n;
    proof {
        lemma_limits();
        assert(all.skip(n as int).len() == 0);
    }
    while i > 0
        invariant
            i <= n <= 16,
            pos + n <= bytes.len(),
            all == bytes@.skip(pos as int).take(n as int),
            all.len() == n,
            value == number(all.skip(i as int)),
        decreases i,
    {
        i = i - 1;
        let ghost tail = all.skip(i as int);
        proof {
            assert(tail.skip(1) =~= all.skip(i as int + 1));
            assert(tail[0] == bytes@[pos + i]);
            lemma_number_bound(tail);
            lemma_limit_grows(tail.len(), 16);
            lemma_limits();
        }
        value = 256 * value + bytes[pos + i] as u128;
    }
    proof {
        assert(all.skip(0) =~= all);
        lemma_number_bound(all);
    }
    value
}

proof fn lemma_limit_grows(n: nat, m: nat)
    requires
        n <= m,
    ensures
        limit(n) <= limit(m),
    decreases m - n,
{
    if n < m {
        lemma_limit_grows(n + 1, m);
    }
}

/// The number of `n` bytes at the front of some bytes.
pub open spec fn leading_number(s: Seq<u8>, n: nat) -> Option<(nat, nat)> {
    if n <= s.len() {
        Some((number(s.take(n as int)), n))
    } else {
        None
    }
}

pub proof fn lemma_leading_number(x: nat, n: nat, rest: Seq<u8>)
    requires
        x < limit(n),
    ensures
        leading_number(low_bytes(x, n) + rest, n) == Some((x, n)),
        low_bytes(x, n).len() == n,
{
    lemma_low_bytes(x, n);
    assert((low_bytes(x, n) + rest).take(n as int) =~= low_bytes(x, n));
}

impl Strict for u16 {
    type Model = u16;

    open spec fn model(&self) -> u16 {
        *self
    }

    open spec fn fits(m: u16) -> bool {
        true
    }

    open spec fn written(m: u16) -> Seq<u8> {
        low_bytes(m as nat, 2)
    }

    open spec fn read(s: Seq<u8>) -> Result<(u16, nat), Fault> {
        match leading_number(s, 2) {
            Some(t) => Ok((t.0 as u16, t.1)),
            None => Err(Fault::Malformed),
        }
    }

    proof fn law_reads_back(m: u16, rest: Seq<u8>) {
        lemma_limits();
        lemma_leading_number(m as nat, 2, rest);
    }

    proof fn law_reads_within(s: Seq<u8>) {
    }

    fn strict_encode(&self) -> (r: Option<Vec<u8>>) {
        proof {
            lemma_limits();
        }
        Some(write_number(*self as u128, 2))
    }

    fn strict_decode(bytes: &Vec<u8>, pos: usize) -> (r: Result<(u16, usize), Fault>) {
        if bytes.len() - pos < 2 {
            return Err(Fault::Malformed);
        }
        proof {
            lemma_limits();
        }
        Ok((read_number(bytes, pos, 2) as u16, pos + 2))
    }
}

impl Strict for u8 {
    type Model = u8;

    open spec fn model(&self) -> u8 {
        *self
    }

    open spec fn fits(m: u8) -> bool {
        true
    }

    open spec fn written(m: u8) -> Seq<u8> {
        low_bytes(m as nat, 1)
    }

    open spec fn read(s: Seq<u8>) -> Result<(u8, nat), Fault> {
        match leading_number(s, 1) {
            Some(t) => Ok((t.0 as u8, t.1)),
            None => Err(Fault::Malformed),
        }
    }

    proof fn law_reads_back(m: u8, rest: Seq<u8>) {
        lemma_limits();
        lemma_leading_number(m as nat, 1, rest);
    }

    proof fn law_reads_within(s: Seq<u8>) {
    }

    fn strict_encode(&self) -> (r: Option<Vec<u8>>) {
        proof {
            lemma_limits();
        }
        Some(write_number(*self as u128, 1))
    }

    fn strict_decode(bytes: &Vec<u8>, pos: usize) -> (r: Result<(u8, usize), Fault>) {
        if bytes.len() - pos < 1 {
            return Err(Fault::Malformed);
        }
        proof {
            lemma_limits();
        }
        Ok((read_number(bytes, pos, 1) as u8, pos + 1))
    }
}

impl Strict for u32 {
    type Model = u32;

    open spec fn model(&self) -> u32 {
        *self
    }

    open spec fn fits(m: u32) -> bool {
        true
    }

    open spec fn written(m: u32) -> Seq<u8> {
        low_bytes(m as nat, 4)
    }

    open spec fn read(s: Seq<u8>) -> Result<(u32, nat), Fault> {
        match leading_number(s, 4) {
            Some(t) => Ok((t.0 as u32, t.1)),
            None => Err(Fault::Malformed),
        }
    }

    proof fn law_reads_back(m: u32, rest: Seq<u8>) {
        lemma_limits();
        lemma_leading_number(m as nat, 4, rest);
    }

    proof fn law_reads_within(s: Seq<u8>) {
    }

    fn strict_encode(&self) -> (r: Option<Vec<u8>>) {
        proof {
            lemma_limits();
        }
        Some(write_number(*self as u128, 4))
    }

    fn strict_decode(bytes: &Vec<u8>, pos: usize) -> (r: Result<(u32, usize), Fault>) {
        if bytes.len() - pos < 4 {
            return Err(Fault::Malformed);
        }
        proof {
            lemma_limits();
        }
        Ok((read_number(bytes, pos, 4) as u32, pos + 4))
    }
}

impl Strict for u64 {
    type Model = u64;

    open spec fn model(&self) -> u64 {
        *self
    }

    open spec fn fits(m: u64) -> bool {
        true
    }

    open spec fn written(m: u64) -> Seq<u8> {
        low_bytes(m as nat, 8)
    }

    open spec fn read(s: Seq<u8>) -> Result<(u64, nat), Fault> {
        match leading_number(s, 8) {
            Some(t) => Ok((t.0 as u64, t.1)),
            None => Err(Fault::Malformed),
        }
    }

    proof fn law_reads_back(m: u64, rest: Seq<u8>) {
        lemma_limits();
        lemma_leading_number(m as nat, 8, rest);
    }

    proof fn law_reads_within(s: Seq<u8>) {
    }

    fn strict_encode(&self) -> (r: Option<Vec<u8>>) {
        proof {
            lemma_limits();
        }
        Some(write_number(*self as u128, 8))
    }

    fn strict_decode(bytes: &Vec<u8>, pos: usize) -> (r: Result<(u64, usize), Fault>) {
        if bytes.len() - pos < 8 {
            return Err(Fault::Malformed);
        }
        proof {
            lemma_limits();
        }
        Ok((read_number(bytes, pos, 8) as u64, pos + 8))
    }
}

impl Strict for u128 {
    type Model = u128;

    open spec fn model(&self) -> u128 {
        *self
    }

    open spec fn fits(m: u128) -> bool {
        true
    }

    open spec fn written(m: u128) -> Seq<u8> {
        low_bytes(m as nat, 16)
    }

    open spec fn read(s: Seq<u8>) -> Result<(u128, nat), Fault> {
        match leading_number(s, 16) {
            Some(t) => Ok((t.0 as u128, t.1)),
            None => Err(Fault::Malformed),
        }
    }

    proof fn law_reads_back(m: u128, rest: Seq<u8>) {
        lemma_limits();
        lemma_leading_number(m as nat, 16, rest);
    }

    proof fn law_reads_within(s: Seq<u8>) {
    }

    fn strict_encode(&self) -> (r: Option<Vec<u8>>) {
        proof {
            lemma_limits();
        }
        Some(write_number(*self, 16))
    }

    fn strict_decode(bytes: &Vec<u8>, pos: usize) -> (r: Result<(u128, usize), Fault>) {
        if bytes.len() - pos < 16 {
            return Err(Fault::Malformed);
        }
        proof {
            lemma_limits();
        }
        Ok((read_number(bytes, pos, 16), pos + 16))
    }
}

/// The array of 32 bytes with a given content.
pub open spec fn array_32(s: Seq<u8>) -> [u8; 32] {
    choose|a: [u8; 32]| a@ == s
}

proof fn lemma_array_32(a: [u8; 32])
    ensures
        array_32(a@) == a,
{
    assert(array_32(a@)@ == a@);
    assert(array_32(a@) =~= a);
}

impl Strict for [u8; 32] {
    type Model = [u8; 32];

    open spec fn model(&self) -> [u8; 32] {
        *self
    }

    open spec fn fits(m: [u8; 32]) -> bool {
        true
    }

    open spec fn written(m: [u8; 32]) -> Seq<u8> {
        m@
    }

    open spec fn read(s: Seq<u8>) -> Result<([u8; 32], nat), Fault> {
        if 32 <= s.len() {
            Ok((array_32(s.take(32)), 32))
        } else {
            Err(Fault::Malformed)
        }
    }

    proof fn law_reads_back(m: [u8; 32], rest: Seq<u8>) {
        lemma_array_32(m);
        assert((m@ + rest).take(32) =~= m@);
    }

    proof fn law_reads_within(s: Seq<u8>) {
    }

    fn strict_encode(&self) -> (r: Option<Vec<u8>>) {
        let mut out: Vec<u8> = Vec::new();
        let mut i: usize = 0;
        while i < 32
            invariant
                i <= 32,
                out@ == self@.take(i as int),
            decreases 32 - i,
        {
            out.push(self[i]);
            i = i + 1;
            assert(out@ =~= self@.take(i as int));
        }
        assert(self@.take(32) =~= self@);
        Some(out)
    }

    fn strict_decode(bytes: &Vec<u8>, pos: usize) -> (r: Result<([u8; 32], usize), Fault>) {
        if bytes.len() - pos < 32 {
            return Err(Fault::Malformed);
        }
        let mut out: [u8; 32] = [0u8; 32];
        let mut i: usize = 0;
        while i < 32
            invariant
                i <= 32,
                pos + 32 <= bytes.len(),
                forall|j: int| 0 <= j < i ==> out@[j] == bytes@[pos + j],
            decreases 32 - i,
        {
            out[i] = bytes[pos + i];
            i = i + 1;
        }
        proof {
            assert(out@ =~= bytes@.skip(pos as int).take(32));
            lemma_array_32(out);
        }
        Ok((out, pos + 32))
    }
}

/// The array of 33 bytes with a given content.
pub open spec fn array_33(s: Seq<u8>) -> [u8; 33] {
    choose|a: [u8; 33]| a@ == s
}

proof fn lemma_array_33(a: [u8; 33])
    ensures
        array_33(a@) == a,
{
    assert(array_33(a@)@ == a@);
    assert(array_33(a@) =~= a);
}

impl Strict for [u8; 33] {
    type Model = [u8; 33];

    open spec fn model(&self) -> [u8; 33] {
        *self
    }

    open spec fn fits(m: [u8; 33]) -> bool {
        true
    }

    open spec fn written(m: [u8; 33]) -> Seq<u8> {
        m@
    }

    open spec fn read(s: Seq<u8>) -> Result<([u8; 33], nat), Fault> {
        if 33 <= s.len() {
            Ok((array_33(s.take(33)), 33))
        } else {
            Err(Fault::Malformed)
        }
    }

    proof fn law_reads_back(m: [u8; 33], rest: Seq<u8>) {
        lemma_array_33(m);
        assert((m@ + rest).take(33) =~= m@);
    }

    proof fn law_reads_within(s: Seq<u8>) {
    }

    fn strict_encode(&self) -> (r: Option<Vec<u8>>) {
        let mut out: Vec<u8> = Vec::new();
        let mut i: usize = 0;
        while i < 33
            invariant
                i <= 33,
                out@ == self@.take(i as int),
            decreases 33 - i,
        {
            out.push(self[i]);
            i = i + 1;
            assert(out@ =~= self@.take(i as int));
        }
        assert(self@.take(33) =~= self@);
        Some(out)
    }

    fn strict_decode(bytes: &Vec<u8>, pos: usize) -> (r: Result<([u8; 33], usize), Fault>) {
        if bytes.len() - pos < 33 {
            return Err(Fault::Malformed);
        }
        let mut out: [u8; 33] = [0u8; 33];
        let mut i: usize = 0;
        while i < 33
            invariant
                i <= 33,
                pos + 33 <= bytes.len(),
                forall|j: int| 0 <= j < i ==> out@[j] == bytes@[pos + j],
            decreases 33 - i,
        {
            out[i] = bytes[pos + i];
            i = i + 1;
        }
        proof {
            assert(out@ =~= bytes@.skip(pos as int).take(33));
            lemma_array_33(out);
        }
        Ok((out, pos + 33))
    }
}

impl<A: Strict, B: Strict> Strict for (A, B) {
    type Model = (A::Model, B::Model);

    open spec fn model(&self) -> (A::Model, B::Model) {
        (self.0.model(), self.1.model())
    }

    open spec fn fits(m: (A::Model, B::Model)) -> bool {
        A::fits(m.0) && B::fits(m.1)
    }

    open spec fn written(m: (A::Model, B::Model)) -> Seq<u8> {
        A::written(m.0) + B::written(m.1)
    }

    open spec fn read(s: Seq<u8>) -> Result<((A::Model, B::Model), nat), Fault> {
        match A::read(s) {
            Ok(a) => match B::read(s.skip(a.1 as int)) {
                Ok(b) => Ok(((a.0, b.0), a.1 + b.1)),
                Err(e) => Err(e),
            },
            Err(e) => Err(e),
        }
    }

    proof fn law_reads_back(m: (A::Model, B::Model), rest: Seq<u8>) {
        let (a, b) = (A::written(m.0), B::written(m.1));
        A::law_reads_back(m.0, b + rest);
        B::law_reads_back(m.1, rest);
        assert((a + b) + rest =~= a + (b + rest));
        assert((a + (b + rest)).skip(a.len() as int) =~= b + rest);
    }

    proof fn law_reads_within(s: Seq<u8>) {
        A::law_reads_within(s);
        if let Ok(a) = A::read(s) {
            B::law_reads_within(s.skip(a.1 as int));
        }
    }

    fn strict_encode(&self) -> (r: Option<Vec<u8>>) {
        let mut out: Vec<u8> = match self.0.strict_encode() {
            Some(bytes) => bytes,
            None => return None,
        };
        match self.1.strict_encode() {
            Some(bytes) => {
                append(&mut out, &bytes);
                Some(out)
            },
            None => None,
        }
    }

    fn strict_decode(bytes: &Vec<u8>, pos: usize) -> (r: Result<((A, B), usize), Fault>) {
        let (a, middle): (A, usize) = match A::strict_decode(bytes, pos) {
            Ok(t) => t,
            Err(e) => return Err(e),
        };
        assert(bytes@.skip(pos as int).skip(middle - pos) =~= bytes@.skip(middle as int));
        match B::strict_decode(bytes, middle) {
            Ok((b, end)) => Ok(((a, b), end)),
            Err(e) => Err(e),
        }
    }
}

impl<T: Strict> Strict for Option<T> {
    type Model = Option<T::Model>;

    open spec fn model(&self) -> Option<T::Model> {
        match *self {
            Some(t) => Some(t.model()),
            None => None,
        }
    }

    open spec fn fits(m: Option<T::Model>) -> bool {
        m matches Some(t) ==> T::fits(t)
    }

    open spec fn written(m: Option<T::Model>) -> Seq<u8> {
        match m {
            Some(t) => seq![1u8] + T::written(t),
            None => seq![0u8],
        }
    }

    open spec fn read(s: Seq<u8>) -> Result<(Option<T::Model>, nat), Fault> {
        if s.len() == 0 {
            Err(Fault::Malformed)
        } else if s[0] == 0 {
            Ok((None, 1))
        } else if s[0] == 1 {
            match T::read(s.skip(1)) {
                Ok(t) => Ok((Some(t.0), 1 + t.1)),
                Err(e) => Err(e),
            }
        } else {
            Err(Fault::Malformed)
        }
    }

    proof fn law_reads_back(m: Option<T::Model>, rest: Seq<u8>) {
        if let Some(t) = m {
            T::law_reads_back(t, rest);
            assert(((seq![1u8] + T::written(t)) + rest).skip(1) =~= T::written(t) + rest);
        }
    }

    proof fn law_reads_within(s: Seq<u8>) {
        if s.len() > 0 {
            T::law_reads_within(s.skip(1));
        }
    }

    fn strict_encode(&self) -> (r: Option<Vec<u8>>) {
        match self {
            Some(t) => match t.strict_encode() {
                Some(bytes) => {
                    let mut out: Vec<u8> = vec![1u8];
                    append(&mut out, &bytes);
                    Some(out)
                },
                None => None,
            },
            None => Some(vec![0u8]),
        }
    }

    fn strict_decode(bytes: &Vec<u8>, pos: usize) -> (r: Result<(Option<T>, usize), Fault>) {
        if pos == bytes.len() {
            return Err(Fault::Malformed);
        }
        assert(bytes@.skip(pos as int).skip(1) =~= bytes@.skip(pos + 1));
        if bytes[pos] == 0 {
            Ok((None, pos + 1))
        } else if bytes[pos] == 1 {
            match T::strict_decode(bytes, pos + 1) {
                Ok((t, end)) => Ok((Some(t), end)),
                Err(e) => Err(e),
            }
        } else {
            Err(Fault::Malformed)
        }
    }
}

/// The models of a list.
pub open spec fn models<T: Strict>(items: Seq<T>) -> Seq<T::Model> {
    Seq::new(items.len(), |i: int| items[i].model())
}

/// The items of a list, one after the other.
pub open spec fn all_written<T: Strict>(ms: Seq<T::Model>) -> Seq<u8>
    decreases ms.len(),
{
    if ms.len() == 0 {
        Seq::empty()
    } else {
        T::written(ms[0]) + all_written::<T>(ms.skip(1))
    }
}

/// A number of items at the front of some bytes.
pub open spec fn all_read<T: Strict>(s: Seq<u8>, n: nat) -> Result<(Seq<T::Model>, nat), Fault>
    decreases n,
{
    if n == 0 {
        Ok((Seq::empty(), 0))
    } else {
        match T::read(s) {
            Ok(t) => match all_read::<T>(s.skip(t.1 as int), (n - 1) as nat) {
                Ok(ts) => Ok((seq![t.0] + ts.0, t.1 + ts.1)),
                Err(e) => Err(e),
            },
            Err(e) => Err(e),
        }
    }
}

proof fn lemma_all_read_back<T: Strict>(ms: Seq<T::Model>, rest: Seq<u8>)
    requires
        forall|i: int| 0 <= i < ms.len() ==> T::fits(#[trigger] ms[i]),
    ensures
        all_read::<T>(all_written::<T>(ms) + rest, ms.len()) == Ok::<_, Fault>(
            (ms, all_written::<T>(ms).len()),
        ),
    decreases ms.len(),
{
    if ms.len() > 0 {
        let head = T::written(ms[0]);
        let tail = all_written::<T>(ms.skip(1));
        assert(T::fits(ms[0]));
        assert forall|i: int| 0 <= i < ms.skip(1).len() implies T::fits(
            #[trigger] ms.skip(1)[i],
        ) by {
            assert(ms.skip(1)[i] == ms[i + 1]);
        }
        lemma_all_read_back::<T>(ms.skip(1), rest);
        T::law_reads_back(ms[0], tail + rest);
        assert((head + tail) + rest =~= head + (tail + rest));
        assert((head + (tail + rest)).skip(head.len() as int) =~= tail + rest);
        assert(seq![ms[0]] + ms.skip(1) =~= ms);
    } else {
        assert(ms =~= Seq::empty());
    }
}

proof fn lemma_all_read_within<T: Strict>(s: Seq<u8>, n: nat)
    ensures
        all_read::<T>(s, n) matches Ok(t) ==> t.1 <= s.len(),
    decreases n,
{
    if n > 0 {
        T::law_reads_within(s);
        if let Ok(t) = T::read(s) {
            lemma_all_read_within::<T>(s.skip(t.1 as int), (n - 1) as nat);
        }
    }
}

proof fn lemma_all_written_push<T: Strict>(ms: Seq<T::Model>, m: T::Model)
    ensures
        all_written::<T>(ms.push(m)) == all_written::<T>(ms) + T::written(m),
    decreases ms.len(),
{
    if ms.len() == 0 {
        reveal_with_fuel(all_written, 2);
        assert(ms.push(m).skip(1) =~= Seq::empty());
        assert(all_written::<T>(ms.push(m)) =~= all_written::<T>(ms) + T::written(m));
    } else {
        lemma_all_written_push::<T>(ms.skip(1), m);
        assert(ms.push(m).skip(1) =~= ms.skip(1).push(m));
        assert(all_written::<T>(ms.push(m)) =~= all_written::<T>(ms) + T::written(m));
    }
}

/// What is read of a list when some of it was read before.
pub open spec fn after<M>(before: Seq<M>, n: nat, rest: Result<(Seq<M>, nat), Fault>) -> Result<
    (Seq<M>, nat),
    Fault,
> {
    match rest {
        Ok(t) => Ok((before + t.0, n + t.1)),
        Err(e) => Err(e),
    }
}

impl<T: Strict> Strict for Vec<T> {
    type Model = Seq<T::Model>;

    open spec fn model(&self) -> Seq<T::Model> {
        models(self@)
    }

    open spec fn fits(m: Seq<T::Model>) -> bool {
        m.len() <= u16::MAX && forall|i: int| 0 <= i < m.len() ==> T::fits(#[trigger] m[i])
    }

    open spec fn written(m: Seq<T::Model>) -> Seq<u8> {
        low_bytes(m.len(), 2) + all_written::<T>(m)
    }

    open spec fn read(s: Seq<u8>) -> Result<(Seq<T::Model>, nat), Fault> {
        match leading_number(s, 2) {
            Some(n) => match all_read::<T>(s.skip(2), n.0) {
                Ok(t) => Ok((t.0, 2 + t.1)),
                Err(e) => Err(e),
            },
            None => Err(Fault::Malformed),
        }
    }

    proof fn law_reads_back(m: Seq<T::Model>, rest: Seq<u8>) {
        let count = low_bytes(m.len(), 2);
        let items = all_written::<T>(m);
        lemma_limits();
        lemma_leading_number(m.len(), 2, items + rest);
        lemma_all_read_back::<T>(m, rest);
        assert((count + items) + rest =~= count + (items + rest));
        assert((count + (items + rest)).skip(2) =~= items + rest);
    }

    proof fn law_reads_within(s: Seq<u8>) {
        if s.len() >= 2 {
            lemma_all_read_within::<T>(s.skip(2), number(s.take(2)));
        }
    }

    fn strict_encode(&self) -> (r: Option<Vec<u8>>) {
        let ghost m = self.model();
        if self.len() > u16::MAX as usize {
            return None;
        }
        proof {
            lemma_limits();
        }
        let mut out: Vec<u8> = write_number(self.len() as u128, 2);
        let ghost count = out@;
        assert(count + all_written::<T>(m.take(0)) =~= count);
        let mut i: usize = 0;
        while i < self.len()
            invariant
                i <= self.len(),
                m == models(self@),
                out@ == count + all_written::<T>(m.take(i as int)),
                forall|j: int| 0 <= j < i ==> T::fits(#[trigger] m[j]),
            decreases self.len() - i,
        {
            match self[i].strict_encode() {
                Some(bytes) => {
                    proof {
                        assert(m.take(i as int + 1) =~= m.take(i as int).push(m[i as int]));
                        lemma_all_written_push::<T>(m.take(i as int), m[i as int]);
                    }
                    append(&mut out, &bytes);
                    assert(out@ =~= count + all_written::<T>(m.take(i as int + 1)));
                },
                None => {
                    assert(!T::fits(m[i as int]));
                    return None;
                },
            }
            i = i + 1;
        }
        assert(m.take(m.len() as int) =~= m);
        Some(out)
    }

    fn strict_decode(bytes: &Vec<u8>, pos: usize) -> (r: Result<(Vec<T>, usize), Fault>) {
        if bytes.len() - pos < 2 {
            return Err(Fault::Malformed);
        }
        proof {
            lemma_limits();
        }
        let n: usize = read_number(bytes, pos, 2) as usize;
        let start: usize = pos + 2;
        let ghost all = all_read::<T>(bytes@.skip(start as int), n as nat);
        assert(bytes@.skip(pos as int).skip(2) =~= bytes@.skip(start as int));
        let mut out: Vec<T> = Vec::new();
        let mut at: usize = start;
        let mut i: usize = 0;
        proof {
            let rest = all_read::<T>(bytes@.skip(at as int), n as nat);
            if let Ok(t) = rest {
                assert(models(out@) + t.0 =~= t.0);
            }
        }
        while i < n
            invariant
                i <= n,
                start <= at <= bytes.len(),
                out@.len() == i,
                all matches Err(e) ==> Self::read(bytes@.skip(pos as int)) == Err::<
                    (Seq<T::Model>, nat),
                    _,
                >(e),
                all == after(
                    models(out@),
                    (at - start) as nat,
                    all_read::<T>(bytes@.skip(at as int), (n - i) as nat),
                ),
            decreases n - i,
        {
            let ghost before = models(out@);
            match T::strict_decode(bytes, at) {
                Ok((item, end)) => {
                    assert(bytes@.skip(at as int).skip(end - at) =~= bytes@.skip(end as int));
                    let ghost rest = all_read::<T>(bytes@.skip(end as int), (n - i - 1) as nat);
                    let ghost m = item.model();
                    out.push(item);
                    proof {
                        assert(models(out@) =~= before.push(m));
                        if let Ok(t) = rest {
                            assert(before + (seq![m] + t.0) =~= before.push(m) + t.0);
                        }
                    }
                    at = end;
                },
                Err(e) => {
                    return Err(e);
                },
            }
            i = i + 1;
        }
        assert(models(out@) + Seq::empty() =~= models(out@));
        Ok((out, at))
    }
}

/// Puts two pieces together, if both could be written.
pub fn chained(first: Option<Vec<u8>>, second: Option<Vec<u8>>) -> (r: Option<Vec<u8>>)
    ensures
        match r {
            Some(bytes) => first is Some && second is Some && bytes@ == first.unwrap()@
                + second.unwrap()@,
            None => first is None || second is None,
        },
{
    match (first, second) {
        (Some(a), Some(b)) => {
            let mut out: Vec<u8> = a;
            append(&mut out, &b);
            Some(out)
        },
        _ => None,
    }
}

} // verus!
