use vstd::prelude::*;
use crate::descriptor::{
    field_type, method_desc, method_type, parse_field_type, parse_method_descriptor, type_desc,
};
use crate::model::{
    BootstrapMethod, ClassAttribute, ClassConstant, ClassField, ClassMethod, ClassVersion, Code,
    ExceptionTable, JvmClass, MethodSignature, SourceLineNumber, TypeSignature,
};

verus! {

/// Why a class file was rejected.
#[derive(Clone, Copy, Debug, PartialEq, Eq, Structural)]
pub enum MalformedReason {
    ShortRead,
    BadMagic,
    UnsupportedTag(u8),
    BadIndex,
    BadDescriptor,
    BadUtf8,
}

/// A class file rejected at byte `offset`.
#[derive(Clone, Copy, Debug, PartialEq, Eq, Structural)]
pub struct MalformedClass {
    pub offset: usize,
    pub reason: MalformedReason,
}

/// The big-endian 16-bit number at `i`.
pub open spec fn be_u16(b: Seq<u8>, i: int) -> int {
    b[i] as int * 256 + b[i + 1] as int
}

/// The big-endian 32-bit number at `i`.
pub open spec fn be_u32(b: Seq<u8>, i: int) -> int {
    be_u16(b, i) * 65536 + be_u16(b, i + 2)
}

/// `t` is a constant-pool tag that the decoder reads.
pub open spec fn is_pool_tag(t: u8) -> bool {
    t == 1 || (3 <= t <= 12) || (15 <= t <= 20)
}

/// The offset lies in the class body after the constant-pool count.
pub open spec fn in_body(b: Seq<u8>, o: int) -> bool {
    POOL_OFFSET + 2 <= o < b.len()
}

/// The defect that `e` reports really sits at its offset in `b`: the bytes
/// end within the few the read needed, the magic number is wrong, the byte
/// there is no pool tag, the bytes there are no UTF-8, or (for a bad index
/// or descriptor) the offset is that of the entry or index read in the class
/// body, or the pool count is zero.
pub open spec fn malformed_at(b: Seq<u8>, e: MalformedClass) -> bool {
    let o = e.offset as int;
    match e.reason {
        MalformedReason::ShortRead => o + 8 > b.len(),
        MalformedReason::BadMagic => o == 0 && b.len() >= 4 && be_u32(b, 0) != CLASS_MAGIC,
        MalformedReason::UnsupportedTag(t) => 0 <= o < b.len() && b[o] == t && !is_pool_tag(t),
        MalformedReason::BadUtf8 => exists|n: int|
            0 <= n && o + n <= b.len() && #[trigger] utf8_text(b.subrange(o, o + n)) is None,
        MalformedReason::BadIndex => in_body(b, o) || (o == POOL_OFFSET && b.len() >= POOL_OFFSET
            + 2 && be_u16(b, POOL_OFFSET as int) == 0),
        MalformedReason::BadDescriptor => in_body(b, o),
    }
}

/// An error about an index or descriptor, reported at `at`.
pub open spec fn index_error_at(e: MalformedClass, at: usize) -> bool {
    e.offset == at && (e.reason is BadIndex || e.reason is BadDescriptor)
}

/// The text that UTF-8 bytes decode to, if they are valid UTF-8.
pub uninterp spec fn utf8_text(b: Seq<u8>) -> Option<Seq<char>>;

/// Relies on `String::from_utf8`: the text exactly when the bytes are valid
/// UTF-8, which depends on the bytes alone.
#[verifier::external_body]
fn decode_utf8(b: Vec<u8>) -> (r: Option<String>)
    ensures
        match r {
            Some(s) => utf8_text(b@) == Some(s@),
            None => utf8_text(b@) is None,
        },
{
    String::from_utf8(b).ok()
}

fn short(offset: usize) -> (r: MalformedClass)
    ensures
        r == (MalformedClass { offset, reason: MalformedReason::ShortRead }),
{
    MalformedClass { offset, reason: MalformedReason::ShortRead }
}

/// Reads the byte at `off`.
pub fn read_u8(b: &[u8], off: usize) -> (r: Result<u8, MalformedClass>)
    ensures
        off < b@.len() ==> r == Ok::<u8, MalformedClass>(b@[off as int]),
        r matches Err(e) ==> malformed_at(b@, e),
        off >= b@.len() ==> r == Err::<u8, MalformedClass>((MalformedClass { offset: off, reason: MalformedReason::ShortRead })),
{
    if off < b.len() {
        Ok(b[off])
    } else {
        Err(short(off))
    }
}

/// Reads the big-endian 16-bit number at `off`.
pub fn read_u16(b: &[u8], off: usize) -> (r: Result<u16, MalformedClass>)
    ensures
        off + 2 <= b@.len() ==> (r matches Ok(v) && v == be_u16(b@, off as int)),
        r matches Err(e) ==> malformed_at(b@, e),
        off + 2 > b@.len() ==> r == Err::<u16, MalformedClass>((MalformedClass { offset: off, reason: MalformedReason::ShortRead })),
{
    if off < b.len() && b.len() - off >= 2 {
        Ok(b[off] as u16 * 256 + b[off + 1] as u16)
    } else {
        Err(short(off))
    }
}

/// Reads the big-endian 32-bit number at `off`.
pub fn read_u32(b: &[u8], off: usize) -> (r: Result<u32, MalformedClass>)
    ensures
        off + 4 <= b@.len() ==> (r matches Ok(v) && v == be_u32(b@, off as int)),
        r matches Err(e) ==> malformed_at(b@, e),
        off + 4 > b@.len() ==> r == Err::<u32, MalformedClass>((MalformedClass { offset: off, reason: MalformedReason::ShortRead })),
{
    if off < b.len() && b.len() - off >= 4 {
        let hi = b[off] as u32 * 256 + b[off + 1] as u32;
        let lo = b[off + 2] as u32 * 256 + b[off + 3] as u32;
        Ok(hi * 65536 + lo)
    } else {
        Err(short(off))
    }
}

/// A constant-pool entry as it stands in the file, before its indices are
/// followed.
#[derive(Debug)]
enum RawConstant {
    Unused,
    Utf8(String),
    Integer(i32),
    Float(u32),
    Long(i64),
    Double(u64),
    Class(u16),
    String(u16),
    Fieldref(u16, u16),
    Methodref(u16, u16),
    InterfaceMethodref(u16, u16),
    NameAndType(u16, u16),
    MethodType(u16),
    Dynamic(u16, u16),
    InvokeDynamic(u16, u16),
    Other,
}

/// Slot 0 is the unused sentinel and every long or double is followed by
/// one unused slot.
pub open spec fn pool_layout_ok(pool: Seq<ClassConstant>) -> bool {
    &&& pool.len() >= 1
    &&& pool[0] is Unused
    &&& forall|k: int|
        0 <= k < pool.len() && (#[trigger] pool[k] is Long || pool[k] is Double) ==> k + 1
            < pool.len() && pool[k + 1] is Unused
}

spec fn raw_layout_ok(pool: Seq<RawConstant>) -> bool {
    &&& pool.len() >= 1
    &&& pool[0] is Unused
    &&& forall|k: int|
        0 <= k < pool.len() && (#[trigger] pool[k] is Long || pool[k] is Double) ==> k + 1
            < pool.len() && pool[k + 1] is Unused
}

fn copy_bytes(b: &[u8], off: usize, len: usize) -> (r: Vec<u8>)
    requires
        off + len <= b@.len(),
    ensures
        r@ == b@.subrange(off as int, off + len),
{
    let n = b.len();
    let mut v: Vec<u8> = Vec::new();
    let mut k: usize = 0;
    while k < len
        invariant
            n == b@.len(),
            off + len <= b@.len(),
            k <= len,
            v@ == b@.subrange(off as int, off + k),
        decreases len - k,
    {
        v.push(b[off + k]);
        k = k + 1;
        assert(v@ =~= b@.subrange(off as int, off + k));
    }
    v
}

/// Reads the entry at `off`; `room` is how many slots the pool has left.
fn read_entry(b: &[u8], off: usize, room: usize) -> (r: Result<(RawConstant, usize), MalformedClass>)
    requires
        off >= POOL_OFFSET + 2,
    ensures
        r matches Ok((e, end)) ==> !(e is Unused) && ((e is Long || e is Double) ==> room >= 2)
            && off < end <= b@.len(),
        r matches Err(e) ==> malformed_at(b@, e),
{
    let n = b.len();
    let tag = read_u8(b, off)?;
    if off == usize::MAX {
        return Err(short(off));
    }
    let p = off + 1;
    if tag == 1 {
        let len = read_u16(b, p)? as usize;
        if p + 2 > b.len() || b.len() - (p + 2) < len {
            return Err(short(b.len()));
        }
        let bytes = copy_bytes(b, p + 2, len);
        match decode_utf8(bytes) {
            Some(s) => Ok((RawConstant::Utf8(s), p + 2 + len)),
            None => {
                assert(utf8_text(b@.subrange(p + 2, p + 2 + len)) is None);
                Err(MalformedClass { offset: p + 2, reason: MalformedReason::BadUtf8 })
            },
        }
    } else if tag == 3 || tag == 4 {
        let v = read_u32(b, p)?;
        if tag == 3 {
            Ok((RawConstant::Integer(#[verifier::truncate] (v as i32)), p + 4))
        } else {
            Ok((RawConstant::Float(v), p + 4))
        }
    } else if tag == 5 || tag == 6 {
        let hi = read_u32(b, p)?;
        let lo = read_u32(b, p + 4)?;
        let bits = hi as u64 * 4294967296 + lo as u64;
        if room < 2 {
            return Err(MalformedClass { offset: off, reason: MalformedReason::BadIndex });
        }
        if tag == 5 {
            Ok((RawConstant::Long(#[verifier::truncate] (bits as i64)), p + 8))
        } else {
            Ok((RawConstant::Double(bits), p + 8))
        }
    } else if tag == 7 || tag == 8 || tag == 16 || tag == 19 || tag == 20 {
        let i = read_u16(b, p)?;
        let e = if tag == 7 {
            RawConstant::Class(i)
        } else if tag == 8 {
            RawConstant::String(i)
        } else if tag == 16 {
            RawConstant::MethodType(i)
        } else {
            RawConstant::Other
        };
        Ok((e, p + 2))
    } else if tag == 9 || tag == 10 || tag == 11 || tag == 12 || tag == 17 || tag == 18 {
        let i = read_u16(b, p)?;
        let j = read_u16(b, p + 2)?;
        let e = if tag == 9 {
            RawConstant::Fieldref(i, j)
        } else if tag == 10 {
            RawConstant::Methodref(i, j)
        } else if tag == 11 {
            RawConstant::InterfaceMethodref(i, j)
        } else if tag == 12 {
            RawConstant::NameAndType(i, j)
        } else if tag == 17 {
            RawConstant::Dynamic(i, j)
        } else {
            RawConstant::InvokeDynamic(i, j)
        };
        Ok((e, p + 4))
    } else if tag == 15 {
        read_u8(b, p)?;
        read_u16(b, p + 1)?;
        Ok((RawConstant::Other, p + 3))
    } else {
        Err(MalformedClass { offset: off, reason: MalformedReason::UnsupportedTag(tag) })
    }
}

/// Reads `count - 1` raw entries starting at `off`, with the offset of each.
fn read_raw_pool(b: &[u8], off: usize, count: u16) -> (r: Result<(Vec<RawConstant>, Vec<usize>, usize), MalformedClass>)
    requires
        count >= 1,
        off >= POOL_OFFSET + 2,
    ensures
        r matches Ok((pool, offs, end)) ==> pool@.len() == count && raw_layout_ok(pool@)
            && offs@.len() == pool@.len() && end >= off && (forall|k: int|
            0 <= k < pool@.len() && !(#[trigger] pool@[k] is Unused) ==> in_body(b@, offs@[k] as int)),
        r matches Err(e) ==> malformed_at(b@, e),
{
    let mut pool: Vec<RawConstant> = Vec::new();
    let mut offs: Vec<usize> = Vec::new();
    pool.push(RawConstant::Unused);
    offs.push(off);
    let start = off;
    let mut off = off;
    while pool.len() < count as usize
        invariant
            1 <= pool@.len() <= count,
            raw_layout_ok(pool@),
            !(pool@.last() is Long || pool@.last() is Double),
            offs@.len() == pool@.len(),
            off >= start,
            start >= POOL_OFFSET + 2,
            forall|k: int|
                0 <= k < pool@.len() && !(#[trigger] pool@[k] is Unused) ==> in_body(b@, offs@[k] as int),
        decreases count - pool@.len(),
    {
        let at = off;
        let (entry, next) = read_entry(b, off, count as usize - pool.len())?;
        off = next;
        let two = match entry {
            RawConstant::Long(_) => true,
            RawConstant::Double(_) => true,
            _ => false,
        };
        let ghost before = pool@;
        let ghost obefore = offs@;
        pool.push(entry);
        offs.push(at);
        if two {
            pool.push(RawConstant::Unused);
            offs.push(at);
        }
        proof {
            assert forall|k: int|
                0 <= k < pool@.len() && (#[trigger] pool@[k] is Long || pool@[k] is Double) implies k
                    + 1 < pool@.len() && pool@[k + 1] is Unused by {
                if k < before.len() {
                    assert(pool@[k] == before[k]);
                    if k + 1 < before.len() {
                        assert(pool@[k + 1] == before[k + 1]);
                    }
                }
            }
            assert forall|k: int|
                0 <= k < pool@.len() && !(#[trigger] pool@[k] is Unused) implies in_body(b@, offs@[k] as int) by {
                if k < before.len() {
                    assert(pool@[k] == before[k]);
                    assert(offs@[k] == obefore[k]);
                }
            }
        }
    }
    Ok((pool, offs, off))
}

/// Where the constant pool starts in a class file.
pub const POOL_OFFSET: usize = 8;

fn bad_index(at: usize) -> (r: MalformedClass)
    ensures
        r == (MalformedClass { offset: at, reason: MalformedReason::BadIndex }),
{
    MalformedClass { offset: at, reason: MalformedReason::BadIndex }
}

/// The text of the `Utf8` entry at `i`.
fn utf8_at(raw: &Vec<RawConstant>, i: u16, at: usize) -> (r: Result<String, MalformedClass>)
    ensures
        r matches Err(e) ==> index_error_at(e, at),
{
    if (i as usize) < raw.len() {
        match &raw[i as usize] {
            RawConstant::Utf8(s) => Ok(s.clone()),
            _ => Err(bad_index(at)),
        }
    } else {
        Err(bad_index(at))
    }
}

/// The name that the `Class` entry at `i` gives.
fn class_name_at(raw: &Vec<RawConstant>, i: u16, at: usize) -> (r: Result<String, MalformedClass>)
    ensures
        r matches Err(e) ==> index_error_at(e, at),
{
    if (i as usize) < raw.len() {
        match &raw[i as usize] {
            RawConstant::Class(n) => utf8_at(raw, *n, at),
            _ => Err(bad_index(at)),
        }
    } else {
        Err(bad_index(at))
    }
}

/// The name and descriptor text that the `NameAndType` entry at `i` gives.
fn name_and_type_at(raw: &Vec<RawConstant>, i: u16, at: usize) -> (r: Result<(String, String), MalformedClass>)
    ensures
        r matches Err(e) ==> index_error_at(e, at),
{
    if (i as usize) < raw.len() {
        match &raw[i as usize] {
            RawConstant::NameAndType(n, d) => {
                let name = utf8_at(raw, *n, at)?;
                let desc = utf8_at(raw, *d, at)?;
                Ok((name, desc))
            },
            _ => Err(bad_index(at)),
        }
    } else {
        Err(bad_index(at))
    }
}

fn bad_descriptor(at: usize) -> (r: MalformedClass)
    ensures
        r == (MalformedClass { offset: at, reason: MalformedReason::BadDescriptor }),
{
    MalformedClass { offset: at, reason: MalformedReason::BadDescriptor }
}

fn field_sig(d: &String, at: usize) -> (r: Result<TypeSignature, MalformedClass>)
    ensures
        r matches Err(e) ==> index_error_at(e, at),
        r matches Ok(t) ==> field_type(t) && type_desc(t) == d@,
{
    match parse_field_type(d.as_str()) {
        Ok(t) => Ok(t),
        Err(_) => Err(bad_descriptor(at)),
    }
}

fn method_sig(d: &String, at: usize) -> (r: Result<MethodSignature, MalformedClass>)
    ensures
        r matches Err(e) ==> index_error_at(e, at),
        r matches Ok(m) ==> method_type(m) && method_desc(m) == d@,
{
    match parse_method_descriptor(d.as_str()) {
        Ok(m) => Ok(m),
        Err(_) => Err(bad_descriptor(at)),
    }
}

/// The value-bearing form of the raw entry at `k`.
fn resolve_entry(raw: &Vec<RawConstant>, k: usize, at: usize) -> (r: Result<ClassConstant, MalformedClass>)
    requires
        k < raw@.len(),
    ensures
        r matches Err(e) ==> index_error_at(e, at) && !(raw@[k as int] is Unused),
        r matches Ok(c) ==> (c is Unused <==> raw@[k as int] is Unused) && (c is Long <==> raw@[
            k as int
        ] is Long) && (c is Double <==> raw@[k as int] is Double),
{
    match &raw[k] {
        RawConstant::Unused => Ok(ClassConstant::Unused),
        RawConstant::Utf8(s) => Ok(ClassConstant::Utf8(s.clone())),
        RawConstant::Integer(v) => Ok(ClassConstant::Integer(*v)),
        RawConstant::Float(v) => Ok(ClassConstant::Float(*v)),
        RawConstant::Long(v) => Ok(ClassConstant::Long(*v)),
        RawConstant::Double(v) => Ok(ClassConstant::Double(*v)),
        RawConstant::Class(n) => Ok(ClassConstant::Class(utf8_at(raw, *n, at)?)),
        RawConstant::String(n) => Ok(ClassConstant::String(utf8_at(raw, *n, at)?)),
        RawConstant::Fieldref(c, nt) => {
            let owner = class_name_at(raw, *c, at)?;
            let (name, desc) = name_and_type_at(raw, *nt, at)?;
            Ok(ClassConstant::Fieldref(owner, name, field_sig(&desc, at)?))
        },
        RawConstant::Methodref(c, nt) => {
            let owner = class_name_at(raw, *c, at)?;
            let (name, desc) = name_and_type_at(raw, *nt, at)?;
            Ok(ClassConstant::Methodref(owner, name, method_sig(&desc, at)?))
        },
        RawConstant::InterfaceMethodref(c, nt) => {
            let owner = class_name_at(raw, *c, at)?;
            let (name, desc) = name_and_type_at(raw, *nt, at)?;
            Ok(ClassConstant::InterfaceMethodref(owner, name, method_sig(&desc, at)?))
        },
        RawConstant::NameAndType(n, d) => {
            let name = utf8_at(raw, *n, at)?;
            let desc = utf8_at(raw, *d, at)?;
            match parse_method_descriptor(desc.as_str()) {
                Ok(m) => Ok(ClassConstant::MethodNameAndType(name, m)),
                Err(_) => Ok(ClassConstant::FieldNameAndType(name, field_sig(&desc, at)?)),
            }
        },
        RawConstant::MethodType(d) => {
            let desc = utf8_at(raw, *d, at)?;
            Ok(ClassConstant::MethodType(method_sig(&desc, at)?))
        },
        RawConstant::InvokeDynamic(bsm, nt) => {
            let (name, desc) = name_and_type_at(raw, *nt, at)?;
            Ok(ClassConstant::InvokeDynamic(*bsm, name, method_sig(&desc, at)?))
        },
        RawConstant::Dynamic(_, _) => Ok(ClassConstant::NotImplemented),
        RawConstant::Other => Ok(ClassConstant::NotImplemented),
    }
}

/// Reads the constant pool that starts at `POOL_OFFSET` and resolves every
/// indirect entry into the value it names. Slot 0 of the result is the
/// unused sentinel and each long or double is followed by an unused slot.
pub fn parse_constant_pool(b: &[u8]) -> (r: Result<(Vec<ClassConstant>, usize), MalformedClass>)
    ensures
        r matches Ok((pool, end)) ==> POOL_OFFSET + 2 <= b@.len() && pool@.len() == be_u16(
            b@,
            POOL_OFFSET as int,
        ) && pool_layout_ok(pool@) && end >= POOL_OFFSET + 2,
        r matches Err(e) ==> malformed_at(b@, e),
{
    let count = read_u16(b, POOL_OFFSET)?;
    if count == 0 {
        return Err(bad_index(POOL_OFFSET));
    }
    let (raw, offs, end) = read_raw_pool(b, POOL_OFFSET + 2, count)?;
    let mut pool: Vec<ClassConstant> = Vec::new();
    let mut k: usize = 0;
    while k < raw.len()
        invariant
            k <= raw@.len(),
            pool@.len() == k,
            offs@.len() == raw@.len(),
            forall|m: int|
                0 <= m < raw@.len() && !(#[trigger] raw@[m] is Unused) ==> in_body(b@, offs@[m] as int),
            forall|m: int|
                0 <= m < k ==> (#[trigger] pool@[m] is Unused <==> raw@[m] is Unused) && (
                pool@[m] is Long <==> raw@[m] is Long) && (pool@[m] is Double <==> raw@[m] is Double),
        decreases raw@.len() - k,
    {
        let c = resolve_entry(&raw, k, offs[k])?;
        pool.push(c);
        k = k + 1;
    }
    proof {
        assert forall|m: int|
            0 <= m < pool@.len() && (#[trigger] pool@[m] is Long || pool@[m] is Double) implies m + 1
                < pool@.len() && pool@[m + 1] is Unused by {
            assert(raw@[m] is Long || raw@[m] is Double);
        }
    }
    Ok((pool, end))
}

/// The 16-bit number at `off` and the offset after it.
fn u16_at(b: &[u8], off: usize) -> (r: Result<(u16, usize), MalformedClass>)
    ensures
        r matches Ok((v, next)) ==> next == off + 2 && next <= b@.len() && v == be_u16(
            b@,
            off as int,
        ),
        r matches Err(e) ==> malformed_at(b@, e),
{
    let n = b.len();
    let v = read_u16(b, off)?;
    Ok((v, off + 2))
}

/// The 32-bit number at `off` and the offset after it.
fn u32_at(b: &[u8], off: usize) -> (r: Result<(u32, usize), MalformedClass>)
    ensures
        r matches Ok((v, next)) ==> next == off + 4 && next <= b@.len() && v == be_u32(
            b@,
            off as int,
        ),
        r matches Err(e) ==> malformed_at(b@, e),
{
    let n = b.len();
    let v = read_u32(b, off)?;
    Ok((v, off + 4))
}

/// The text of the `Utf8` entry at `i` of a resolved pool.
fn pool_utf8(pool: &Vec<ClassConstant>, i: u16, at: usize) -> (r: Result<String, MalformedClass>)
    ensures
        r matches Err(e) ==> index_error_at(e, at),
{
    if (i as usize) < pool.len() {
        match &pool[i as usize] {
            ClassConstant::Utf8(s) => Ok(s.clone()),
            _ => Err(bad_index(at)),
        }
    } else {
        Err(bad_index(at))
    }
}

/// The name of the `Class` entry at `i` of a resolved pool.
fn pool_class(pool: &Vec<ClassConstant>, i: u16, at: usize) -> (r: Result<String, MalformedClass>)
    ensures
        r matches Err(e) ==> index_error_at(e, at),
        r matches Ok(n) ==> (i as int) < pool@.len() && class_entry(pool@[i as int]) == Some(n@),
{
    if (i as usize) < pool.len() {
        match &pool[i as usize] {
            ClassConstant::Class(s) => {
                let n = s.clone();
                Ok(n)
            },
            _ => Err(bad_index(at)),
        }
    } else {
        Err(bad_index(at))
    }
}

/// Whether `s` holds exactly the text `lit`.
fn text_is(s: &String, lit: &str) -> (r: bool)
    ensures
        r == (s@ == lit@),
{
    let a = s.as_str();
    let n = a.unicode_len();
    if n != lit.unicode_len() {
        return false;
    }
    let mut k: usize = 0;
    while k < n
        invariant
            n == a@.len(),
            n == lit@.len(),
            a@ == s@,
            k <= n,
            forall|m: int| 0 <= m < k ==> a@[m] == lit@[m],
        decreases n - k,
    {
        if a.get_char(k) != lit.get_char(k) {
            return false;
        }
        k = k + 1;
    }
    assert(a@ =~= lit@);
    true
}

/// Reads a list of 16-bit numbers preceded by its 16-bit count.
fn u16_list(b: &[u8], off: usize) -> (r: Result<(Vec<u16>, usize), MalformedClass>)
    ensures
        r matches Ok((v, next)) ==> off < next <= b@.len(),
        r matches Err(e) ==> malformed_at(b@, e),
{
    let start = off;
    let (count, mut off) = u16_at(b, off)?;
    let mut v: Vec<u16> = Vec::new();
    let mut k: u16 = 0;
    while k < count
        invariant
            start < off <= b@.len(),
        decreases count - k,
    {
        let (x, next) = u16_at(b, off)?;
        v.push(x);
        off = next;
        k = k + 1;
    }
    Ok((v, off))
}

/// Reads a `Code` attribute's body at `off`.
fn read_code(b: &[u8], off: usize, pool: &Vec<ClassConstant>, depth: u8) -> (r: Result<Code, MalformedClass>)
    requires
        off >= POOL_OFFSET + 2,
    ensures
        r matches Err(e) ==> malformed_at(b@, e),
    decreases depth, 3u8,
{
    let (max_stack, off) = u16_at(b, off)?;
    let (max_locals, off) = u16_at(b, off)?;
    let (len, off) = u32_at(b, off)?;
    let len = len as usize;
    if b.len() - off < len {
        return Err(short(b.len()));
    }
    let code = copy_bytes(b, off, len);
    let (count, mut off) = u16_at(b, off + len)?;
    let mut exception_table: Vec<ExceptionTable> = Vec::new();
    let mut k: u16 = 0;
    while k < count
        invariant
            POOL_OFFSET + 2 <= off <= b@.len(),
        decreases count - k,
    {
        let (start_pc, o) = u16_at(b, off)?;
        let (end_pc, o) = u16_at(b, o)?;
        let (handler_pc, o) = u16_at(b, o)?;
        let at = o;
        let (catch, o) = u16_at(b, o)?;
        let catch_type = if catch == 0 {
            None
        } else {
            Some(pool_class(pool, catch, at)?)
        };
        exception_table.push(ExceptionTable { start_pc, end_pc, handler_pc, catch_type });
        off = o;
        k = k + 1;
    }
    let (attributes, _) = parse_attributes(b, off, pool, depth)?;
    Ok(Code { max_stack, max_locals, code, exception_table, attributes })
}

/// Reads the body of the attribute named `name`, which spans `off` to `end`.
fn read_attribute(b: &[u8], off: usize, name: &String, pool: &Vec<ClassConstant>, depth: u8) -> (r: Result<ClassAttribute, MalformedClass>)
    requires
        off >= POOL_OFFSET + 2,
    ensures
        r matches Err(e) ==> malformed_at(b@, e),
    decreases depth, 1u8,
{
    let body = b;
    if text_is(name, "Code") && depth > 0 {
        Ok(ClassAttribute::Code(read_code(body, off, pool, depth - 1)?))
    } else if text_is(name, "LineNumberTable") {
        let (count, mut o) = u16_at(body, off)?;
        let mut lines: Vec<SourceLineNumber> = Vec::new();
        let mut k: u16 = 0;
        while k < count
            invariant
                body@ == b@,
                o <= body@.len(),
            decreases count - k,
        {
            let (start_pc, o2) = u16_at(body, o)?;
            let (line_number, o3) = u16_at(body, o2)?;
            lines.push(SourceLineNumber { start_pc, line_number });
            o = o3;
            k = k + 1;
        }
        Ok(ClassAttribute::LineNumberTable(lines))
    } else if text_is(name, "SourceFile") {
        let (i, _) = u16_at(body, off)?;
        Ok(ClassAttribute::SourceFile(pool_utf8(pool, i, off)?))
    } else if text_is(name, "Exceptions") {
        let (v, _) = u16_list(body, off)?;
        Ok(ClassAttribute::Exceptions(v))
    } else if text_is(name, "ConstantValue") {
        let (i, _) = u16_at(body, off)?;
        if (i as usize) < pool.len() && i != 0 {
            Ok(ClassAttribute::ConstantValue(pool[i as usize].clone()))
        } else {
            Err(bad_index(off))
        }
    } else if text_is(name, "BootstrapMethods") {
        let (count, mut o) = u16_at(body, off)?;
        let mut methods: Vec<BootstrapMethod> = Vec::new();
        let mut k: u16 = 0;
        while k < count
            invariant
                body@ == b@,
                o <= body@.len(),
            decreases count - k,
        {
            let (method_ref, o2) = u16_at(body, o)?;
            let (arguments, o3) = u16_list(body, o2)?;
            methods.push(BootstrapMethod { method_ref, arguments });
            o = o3;
            k = k + 1;
        }
        Ok(ClassAttribute::BootstrapMethods(methods))
    } else {
        Ok(ClassAttribute::NotImplemented)
    }
}

/// Reads an attribute list at `off`; attributes of unknown name are kept as
/// `NotImplemented`. `Code` nests at most `depth` deep.
fn parse_attributes(b: &[u8], off: usize, pool: &Vec<ClassConstant>, depth: u8) -> (r: Result<(Vec<ClassAttribute>, usize), MalformedClass>)
    requires
        off >= POOL_OFFSET + 2,
    ensures
        r matches Ok((v, next)) ==> off <= next <= b@.len(),
        r matches Err(e) ==> malformed_at(b@, e),
    decreases depth, 2u8,
{
    let start = off;
    let (count, mut off) = u16_at(b, off)?;
    let mut attributes: Vec<ClassAttribute> = Vec::new();
    let mut k: u16 = 0;
    while k < count
        invariant
            start <= off <= b@.len(),
            start >= POOL_OFFSET + 2,
        decreases count - k,
    {
        let (name_index, o) = u16_at(b, off)?;
        let (len, o) = u32_at(b, o)?;
        let len = len as usize;
        if b.len() - o < len {
            return Err(short(b.len()));
        }
        let name = pool_utf8(pool, name_index, off)?;
        let a = read_attribute(b, o, &name, pool, depth)?;
        attributes.push(a);
        off = o + len;
        k = k + 1;
    }
    Ok((attributes, off))
}

/// Reads the field list at `off`.
fn read_members(b: &[u8], off: usize, pool: &Vec<ClassConstant>) -> (r: Result<(Vec<ClassField>, usize), MalformedClass>)
    requires
        off >= POOL_OFFSET + 2,
    ensures
        r matches Ok((v, next)) ==> off <= next <= b@.len(),
        r matches Ok((v, next)) ==> forall|k: int|
            0 <= k < v@.len() ==> field_type(#[trigger] v@[k].descriptor),
        r matches Err(e) ==> malformed_at(b@, e),
{
    let start = off;
    let (count, mut off) = u16_at(b, off)?;
    let mut fields: Vec<ClassField> = Vec::new();
    let mut k: u16 = 0;
    while k < count
        invariant
            start <= off <= b@.len(),
            start >= POOL_OFFSET + 2,
            forall|m: int| 0 <= m < fields@.len() ==> field_type(#[trigger] fields@[m].descriptor),
        decreases count - k,
    {
        let (access_flags, o) = u16_at(b, off)?;
        let at = o;
        let (name_index, o) = u16_at(b, o)?;
        let (desc_index, o) = u16_at(b, o)?;
        let name = pool_utf8(pool, name_index, at)?;
        let desc = pool_utf8(pool, desc_index, at + 2)?;
        let descriptor = field_sig(&desc, at + 2)?;
        let (attributes, o) = parse_attributes(b, o, pool, 2)?;
        fields.push(ClassField { access_flags, name, descriptor, attributes });
        off = o;
        k = k + 1;
    }
    Ok((fields, off))
}

/// Reads the method list at `off`.
fn read_methods(b: &[u8], off: usize, pool: &Vec<ClassConstant>) -> (r: Result<(Vec<ClassMethod>, usize), MalformedClass>)
    requires
        off >= POOL_OFFSET + 2,
    ensures
        r matches Ok((v, next)) ==> off <= next <= b@.len(),
        r matches Ok((v, next)) ==> forall|k: int|
            0 <= k < v@.len() ==> method_type(#[trigger] v@[k].descriptor),
        r matches Err(e) ==> malformed_at(b@, e),
{
    let start = off;
    let (count, mut off) = u16_at(b, off)?;
    let mut methods: Vec<ClassMethod> = Vec::new();
    let mut k: u16 = 0;
    while k < count
        invariant
            start <= off <= b@.len(),
            start >= POOL_OFFSET + 2,
            forall|m: int| 0 <= m < methods@.len() ==> method_type(#[trigger] methods@[m].descriptor),
        decreases count - k,
    {
        let (access_flags, o) = u16_at(b, off)?;
        let at = o;
        let (name_index, o) = u16_at(b, o)?;
        let (desc_index, o) = u16_at(b, o)?;
        let name = pool_utf8(pool, name_index, at)?;
        let desc = pool_utf8(pool, desc_index, at + 2)?;
        let descriptor = method_sig(&desc, at + 2)?;
        let (attributes, o) = parse_attributes(b, o, pool, 2)?;
        methods.push(ClassMethod { access_flags, name, descriptor, attributes });
        off = o;
        k = k + 1;
    }
    Ok((methods, off))
}

/// Some `Class` entry of the pool names class `n`.
pub open spec fn names_class(pool: Seq<ClassConstant>, n: Seq<char>) -> bool {
    exists|i: int| 0 <= i < pool.len() && #[trigger] class_entry(pool[i]) == Some(n)
}

/// The name a `Class` entry holds.
pub open spec fn class_entry(c: ClassConstant) -> Option<Seq<char>> {
    match c {
        ClassConstant::Class(n) => Some(n@),
        _ => None,
    }
}

/// The magic number that opens every class file.
pub const CLASS_MAGIC: u32 = 0xCAFEBABE;

/// Decodes a class file. Bytes that do not open with the magic number are
/// rejected with `BadMagic` at offset 0, and too few bytes for the header
/// with a short read; a decoded class carries the file's version and a
/// constant pool laid out with its sentinel and two-slot entries.
pub fn parse_class(b: &[u8]) -> (r: Result<JvmClass, MalformedClass>)
    ensures
        b@.len() < 4 ==> r == Err::<JvmClass, MalformedClass>(
            (MalformedClass { offset: 0, reason: MalformedReason::ShortRead }),
        ),
        b@.len() >= 4 && be_u32(b@, 0) != CLASS_MAGIC ==> r == Err::<JvmClass, MalformedClass>(
            (MalformedClass { offset: 0, reason: MalformedReason::BadMagic }),
        ),
        r matches Err(e) ==> malformed_at(b@, e),
        r matches Ok(c) ==> b@.len() >= 10 && be_u32(b@, 0) == CLASS_MAGIC && c.version.minor
            == be_u16(b@, 4) && c.version.major == be_u16(b@, 6) && c.constants@.len() == be_u16(
            b@,
            POOL_OFFSET as int,
        ) && pool_layout_ok(c.constants@),
        r matches Ok(c) ==> names_class(c.constants@, c.this_class@) && (c.super_class matches Some(
            sc,
        ) ==> names_class(c.constants@, sc@)) && forall|k: int|
            0 <= k < c.interfaces@.len() ==> names_class(c.constants@, #[trigger] c.interfaces@[k]@),
        r matches Ok(c) ==> (forall|k: int|
            0 <= k < c.fields@.len() ==> field_type(#[trigger] c.fields@[k].descriptor)) && (forall|
            k: int,
        |
            0 <= k < c.methods@.len() ==> method_type(#[trigger] c.methods@[k].descriptor)),
{
    let magic = read_u32(b, 0)?;
    if magic != CLASS_MAGIC {
        return Err(MalformedClass { offset: 0, reason: MalformedReason::BadMagic });
    }
    let minor = read_u16(b, 4)?;
    let major = read_u16(b, 6)?;
    let (constants, off) = parse_constant_pool(b)?;
    assert(b@.len() >= 10);
    let (access_flags, off) = u16_at(b, off)?;
    let this_at = off;
    let (this_index, off) = u16_at(b, off)?;
    let super_at = off;
    let (super_index, off) = u16_at(b, off)?;
    let this_class = pool_class(&constants, this_index, this_at)?;
    assert(class_entry(constants@[this_index as int]) == Some(this_class@));
    let super_class = if super_index == 0 {
        None
    } else {
        let sc = pool_class(&constants, super_index, super_at)?;
        assert(class_entry(constants@[super_index as int]) == Some(sc@));
        Some(sc)
    };
    let list_at = off;
    let (interface_indices, off) = u16_list(b, off)?;
    let mut interfaces: Vec<String> = Vec::new();
    let mut k: usize = 0;
    while k < interface_indices.len()
        invariant
            b@.len() >= 10,
            be_u32(b@, 0) == CLASS_MAGIC,
            minor == be_u16(b@, 4),
            major == be_u16(b@, 6),
            constants@.len() == be_u16(b@, POOL_OFFSET as int),
            pool_layout_ok(constants@),
            in_body(b@, list_at as int),
            names_class(constants@, this_class@),
            super_class matches Some(sc) ==> names_class(constants@, sc@),
            interfaces@.len() == k,
            forall|m: int| 0 <= m < k ==> names_class(constants@, #[trigger] interfaces@[m]@),
        decreases interface_indices@.len() - k,
    {
        let i = interface_indices[k];
        let n = pool_class(&constants, i, list_at)?;
        assert(class_entry(constants@[i as int]) == Some(n@));
        interfaces.push(n);
        k = k + 1;
    }
    let (fields, off) = read_members(b, off, &constants)?;
    let (methods, off) = read_methods(b, off, &constants)?;
    let (attributes, _) = parse_attributes(b, off, &constants, 2)?;
    Ok(
        JvmClass {
            version: ClassVersion { major, minor },
            constants,
            access_flags,
            this_class,
            super_class,
            interfaces,
            fields,
            methods,
            attributes,
        },
    )
}

} // verus!
