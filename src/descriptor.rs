use vstd::prelude::*;
use vstd::string::StrSliceExecFns;
use vstd::string::StringExecFns;
use crate::model::{MethodSignature, TypeSignature};

verus! {

/// The descriptor text of a type: `I`, `Ljava/lang/String;`, `[J`, ...
pub open spec fn type_desc(t: TypeSignature) -> Seq<char>
    decreases t,
{
    match t {
        TypeSignature::Void => seq!['V'],
        TypeSignature::Boolean => seq!['Z'],
        TypeSignature::Byte => seq!['B'],
        TypeSignature::Char => seq!['C'],
        TypeSignature::Short => seq!['S'],
        TypeSignature::Int => seq!['I'],
        TypeSignature::Long => seq!['J'],
        TypeSignature::Float => seq!['F'],
        TypeSignature::Double => seq!['D'],
        TypeSignature::Class(name) => seq!['L'] + name@ + seq![';'],
        TypeSignature::Array(inner) => seq!['['] + type_desc(*inner),
    }
}

/// The concatenated descriptors of a parameter list.
pub open spec fn params_desc(ps: Seq<TypeSignature>) -> Seq<char>
    decreases ps.len(),
{
    if ps.len() == 0 {
        Seq::empty()
    } else {
        params_desc(ps.drop_last()) + type_desc(ps.last())
    }
}

/// The descriptor text of a method: `(` parameters `)` return type.
pub open spec fn method_desc(m: MethodSignature) -> Seq<char> {
    seq!['('] + params_desc(m.parameters@) + seq![')'] + type_desc(m.return_type)
}

/// A class name that a descriptor can carry: non-empty and free of `;`.
pub open spec fn valid_class_name(n: Seq<char>) -> bool {
    n.len() > 0 && !n.contains(';')
}

/// A type that may stand in a field descriptor: no `Void` anywhere, and
/// every class name valid.
pub open spec fn field_type(t: TypeSignature) -> bool
    decreases t,
{
    match t {
        TypeSignature::Void => false,
        TypeSignature::Class(name) => valid_class_name(name@),
        TypeSignature::Array(inner) => field_type(*inner),
        _ => true,
    }
}

/// A type that may stand as a method's return type.
pub open spec fn return_type(t: TypeSignature) -> bool {
    t is Void || field_type(t)
}

/// A method signature whose descriptor the grammar accepts.
pub open spec fn method_type(m: MethodSignature) -> bool {
    return_type(m.return_type) && forall|i: int|
        0 <= i < m.parameters@.len() ==> #[trigger] field_type(m.parameters@[i])
}

/// Two type signatures are the same type (class names compared by content).
pub open spec fn same_type(a: TypeSignature, b: TypeSignature) -> bool
    decreases a,
{
    match (a, b) {
        (TypeSignature::Class(x), TypeSignature::Class(y)) => x@ == y@,
        (TypeSignature::Array(x), TypeSignature::Array(y)) => same_type(*x, *y),
        (TypeSignature::Class(_), _) => false,
        (TypeSignature::Array(_), _) => false,
        _ => a == b,
    }
}

/// The text `s` is a field descriptor.
pub open spec fn is_field_desc(s: Seq<char>) -> bool {
    exists|t: TypeSignature| field_type(t) && type_desc(t) == s
}

/// Why a descriptor was rejected.
#[derive(Clone, Copy, Debug, PartialEq, Eq, Structural)]
pub enum DescriptorError {
    BadDescriptor,
}

proof fn lemma_desc_nonempty(t: TypeSignature)
    ensures
        type_desc(t).len() >= 1,
        type_desc(t)[0] == match t {
            TypeSignature::Void => 'V',
            TypeSignature::Boolean => 'Z',
            TypeSignature::Byte => 'B',
            TypeSignature::Char => 'C',
            TypeSignature::Short => 'S',
            TypeSignature::Int => 'I',
            TypeSignature::Long => 'J',
            TypeSignature::Float => 'F',
            TypeSignature::Double => 'D',
            TypeSignature::Class(_) => 'L',
            TypeSignature::Array(_) => '[',
        },
{
}

/// Two field descriptors that both start a text are the same descriptor of
/// the same type.
proof fn lemma_prefix_unique(t: TypeSignature, u: TypeSignature, s: Seq<char>)
    requires
        field_type(t),
        field_type(u),
        type_desc(t).len() <= s.len(),
        type_desc(u).len() <= s.len(),
        type_desc(t) == s.subrange(0, type_desc(t).len() as int),
        type_desc(u) == s.subrange(0, type_desc(u).len() as int),
    ensures
        type_desc(t) == type_desc(u),
        same_type(t, u),
    decreases t,
{
    lemma_desc_nonempty(t);
    lemma_desc_nonempty(u);
    assert(type_desc(t)[0] == s[0]);
    assert(type_desc(u)[0] == s[0]);
    match t {
        TypeSignature::Class(x) => {
            if let TypeSignature::Class(y) = u {
                let dt = type_desc(t);
                let du = type_desc(u);
                if x@.len() < y@.len() {
                    let a: int = x@.len() as int + 1;
                    assert(dt[a] == ';');
                    assert(du[a] == y@[a - 1]);
                    assert(s[a] == dt[a]);
                    assert(s[a] == du[a]);
                    assert(y@.contains(';'));
                } else if y@.len() < x@.len() {
                    let a: int = y@.len() as int + 1;
                    assert(du[a] == ';');
                    assert(dt[a] == x@[a - 1]);
                    assert(s[a] == dt[a]);
                    assert(s[a] == du[a]);
                    assert(x@.contains(';'));
                } else {
                    assert forall|k: int| 0 <= k < x@.len() implies x@[k] == y@[k] by {
                        assert(dt[k + 1] == s[k + 1]);
                        assert(du[k + 1] == s[k + 1]);
                    }
                    assert(x@ =~= y@);
                }
            }
        },
        TypeSignature::Array(x) => {
            if let TypeSignature::Array(y) = u {
                let rest = s.subrange(1, s.len() as int);
                assert(type_desc(*x) =~= rest.subrange(0, type_desc(*x).len() as int)) by {
                    assert forall|k: int| 0 <= k < type_desc(*x).len() implies
                        type_desc(*x)[k] == rest[k] by {
                        assert(type_desc(t)[k + 1] == s[k + 1]);
                    }
                }
                assert(type_desc(*y) =~= rest.subrange(0, type_desc(*y).len() as int)) by {
                    assert forall|k: int| 0 <= k < type_desc(*y).len() implies
                        type_desc(*y)[k] == rest[k] by {
                        assert(type_desc(u)[k + 1] == s[k + 1]);
                    }
                }
                lemma_prefix_unique(*x, *y, rest);
            }
        },
        _ => {},
    }
}

/// Reading a descriptor back from its text gives the type it was written
/// from: the text of a field type is a field descriptor, and every field type
/// with that text is the same type.
pub proof fn lemma_descriptor_round_trip(t: TypeSignature)
    requires
        field_type(t),
    ensures
        is_field_desc(type_desc(t)),
        forall|u: TypeSignature|
            field_type(u) && #[trigger] type_desc(u) == type_desc(t) ==> same_type(u, t),
{
    let s = type_desc(t);
    assert(s.subrange(0, s.len() as int) =~= s);
    assert forall|u: TypeSignature|
        field_type(u) && #[trigger] type_desc(u) == type_desc(t) implies same_type(u, t) by {
        lemma_prefix_unique(u, t, s);
    }
}

/// Reads one field type starting at character `i` of `s` (of `n` characters).
fn parse_at(s: &str, n: usize, i: usize) -> (r: Option<(TypeSignature, usize)>)
    requires
        n == s@.len(),
        i <= n,
    ensures
        match r {
            Some((t, j)) => field_type(t) && i < j <= n && s@.subrange(i as int, j as int)
                == type_desc(t),
            None => forall|t: TypeSignature|
                field_type(t) && i + type_desc(t).len() <= n ==> s@.subrange(
                    i as int,
                    i + type_desc(t).len(),
                ) != #[trigger] type_desc(t),
        },
    decreases n - i,
{
    if i >= n {
        proof {
            assert forall|t: TypeSignature|
                field_type(t) && i + type_desc(t).len() <= n implies s@.subrange(
                    i as int,
                    i + type_desc(t).len(),
                ) != #[trigger] type_desc(t) by {
                lemma_desc_nonempty(t);
            }
        }
        return None;
    }
    let c = s.get_char(i);
    let base = if c == 'Z' {
        Some(TypeSignature::Boolean)
    } else if c == 'B' {
        Some(TypeSignature::Byte)
    } else if c == 'C' {
        Some(TypeSignature::Char)
    } else if c == 'S' {
        Some(TypeSignature::Short)
    } else if c == 'I' {
        Some(TypeSignature::Int)
    } else if c == 'J' {
        Some(TypeSignature::Long)
    } else if c == 'F' {
        Some(TypeSignature::Float)
    } else if c == 'D' {
        Some(TypeSignature::Double)
    } else {
        None
    };
    if let Some(t) = base {
        assert(s@.subrange(i as int, i + 1) =~= seq![c]);
        return Some((t, i + 1));
    }
    if c == 'L' {
        let mut k: usize = i + 1;
        while k < n && s.get_char(k) != ';'
            invariant
                n == s@.len(),
                i < k <= n,
                forall|m: int| i < m < k ==> s@[m] != ';',
            decreases n - k,
        {
            k = k + 1;
        }
        if k == n || k == i + 1 {
            proof {
                assert forall|t: TypeSignature|
                    field_type(t) && i + type_desc(t).len() <= n implies s@.subrange(
                        i as int,
                        i + type_desc(t).len(),
                    ) != #[trigger] type_desc(t) by {
                    lemma_desc_nonempty(t);
                    if s@.subrange(i as int, i + type_desc(t).len()) == type_desc(t) {
                        assert(s@[i as int] == type_desc(t)[0]);
                        if let TypeSignature::Class(y) = t {
                            let a: int = y@.len() as int + 1;
                            assert(type_desc(t)[a] == ';');
                            assert(s@[i + a] == ';');
                            if k == i + 1 {
                                assert(type_desc(t)[1] == y@[0]);
                                assert(s@[i + 1] == y@[0]);
                                assert(y@.contains(';'));
                            }
                        }
                    }
                }
            }
            return None;
        }
        let name = s.substring_char(i + 1, k).to_owned();
        proof {
            assert(!name@.contains(';')) by {
                if name@.contains(';') {
                    let m = choose|m: int| 0 <= m < name@.len() && name@[m] == ';';
                    assert(s@[i + 1 + m] == ';');
                }
            }
            let t = TypeSignature::Class(name);
            assert(s@.subrange(i as int, k + 1) =~= type_desc(t));
        }
        return Some((TypeSignature::Class(name), k + 1));
    }
    if c == '[' {
        match parse_at(s, n, i + 1) {
            Some((inner, j)) => {
                let t = TypeSignature::Array(Box::new(inner));
                assert(s@.subrange(i as int, j as int) =~= type_desc(t)) by {
                    assert(s@.subrange(i as int, j as int) =~= seq!['['] + s@.subrange(
                        i + 1,
                        j as int,
                    ));
                }
                return Some((t, j));
            },
            None => {
                proof {
                    assert forall|t: TypeSignature|
                        field_type(t) && i + type_desc(t).len() <= n implies s@.subrange(
                            i as int,
                            i + type_desc(t).len(),
                        ) != #[trigger] type_desc(t) by {
                        lemma_desc_nonempty(t);
                        if s@.subrange(i as int, i + type_desc(t).len()) == type_desc(t) {
                            assert(s@[i as int] == type_desc(t)[0]);
                            if let TypeSignature::Array(x) = t {
                                let dx = type_desc(*x);
                                assert(s@.subrange(i + 1, i + 1 + dx.len()) =~= dx) by {
                                    assert forall|m: int| 0 <= m < dx.len() implies s@.subrange(
                                        i + 1,
                                        i + 1 + dx.len(),
                                    )[m] == dx[m] by {
                                        assert(type_desc(t)[m + 1] == dx[m]);
                                        assert(s@[i + 1 + m] == type_desc(t)[m + 1]);
                                    }
                                }
                                assert(field_type(*x));
                            }
                        }
                    }
                }
                return None;
            },
        }
    }
    proof {
        assert forall|t: TypeSignature|
            field_type(t) && i + type_desc(t).len() <= n implies s@.subrange(
                i as int,
                i + type_desc(t).len(),
            ) != #[trigger] type_desc(t) by {
            lemma_desc_nonempty(t);
            if s@.subrange(i as int, i + type_desc(t).len()) == type_desc(t) {
                assert(s@[i as int] == type_desc(t)[0]);
            }
        }
    }
    None
}

/// Reads a field descriptor; fails exactly when `s` is not the descriptor of
/// a field type.
pub fn parse_field_type(s: &str) -> (r: Result<TypeSignature, DescriptorError>)
    ensures
        match r {
            Ok(t) => field_type(t) && type_desc(t) == s@,
            Err(_) => !is_field_desc(s@),
        },
{
    let n = s.unicode_len();
    match parse_at(s, n, 0) {
        Some((t, j)) => {
            if j == n {
                assert(s@.subrange(0, n as int) =~= s@);
                Ok(t)
            } else {
                proof {
                    if is_field_desc(s@) {
                        let u = choose|u: TypeSignature| field_type(u) && type_desc(u) == s@;
                        assert(s@.subrange(0, n as int) =~= s@);
                        lemma_prefix_unique(t, u, s@);
                    }
                }
                Err(DescriptorError::BadDescriptor)
            }
        },
        None => {
            proof {
                if is_field_desc(s@) {
                    let u = choose|u: TypeSignature| field_type(u) && type_desc(u) == s@;
                    assert(s@.subrange(0, n as int) =~= s@);
                    assert(s@.subrange(0, type_desc(u).len() as int) != type_desc(u));
                }
            }
            Err(DescriptorError::BadDescriptor)
        },
    }
}

/// The text `s` is a method descriptor.
pub open spec fn is_method_desc(s: Seq<char>) -> bool {
    exists|m: MethodSignature| method_type(m) && method_desc(m) == s
}

proof fn lemma_method_desc_parts(w: MethodSignature)
    ensures
        ({
            let md = method_desc(w);
            let pd = params_desc(w.parameters@);
            let td = type_desc(w.return_type);
            &&& md.len() == 2 + pd.len() + td.len()
            &&& md[0] == '('
            &&& md[1 + pd.len() as int] == ')'
            &&& forall|m: int| 0 <= m < pd.len() ==> md[1 + m] == pd[m]
            &&& forall|m: int| 0 <= m < td.len() ==> md[2 + pd.len() as int + m] == td[m]
            &&& md.subrange(2 + pd.len() as int, md.len() as int) == td
        }),
{
    let pd = params_desc(w.parameters@);
    let td = type_desc(w.return_type);
    let a = seq!['('] + pd;
    let b = a + seq![')'];
    assert(method_desc(w) == b + td);
    assert(a.len() == 1 + pd.len());
    assert(b[1 + pd.len() as int] == ')');
    assert forall|m: int| 0 <= m < pd.len() implies (b + td)[1 + m] == pd[m] by {
        assert(a[1 + m] == pd[m]);
    }
    assert((b + td).subrange(2 + pd.len() as int, (b + td).len() as int) =~= td);
}

proof fn lemma_params_desc_take(ps: Seq<TypeSignature>, k: int)
    requires
        0 <= k < ps.len(),
    ensures
        params_desc(ps.take(k + 1)) == params_desc(ps.take(k)) + type_desc(ps[k]),
{
    assert(ps.take(k + 1).drop_last() =~= ps.take(k));
}

/// The descriptors of the first `k` parameters start the descriptors of all.
proof fn lemma_params_desc_prefix(ps: Seq<TypeSignature>, k: int)
    requires
        0 <= k <= ps.len(),
    ensures
        params_desc(ps.take(k)).len() <= params_desc(ps).len(),
        params_desc(ps) == params_desc(ps.take(k)) + params_desc(ps).subrange(
            params_desc(ps.take(k)).len() as int,
            params_desc(ps).len() as int,
        ),
    decreases ps.len() - k,
{
    if k == ps.len() {
        assert(ps.take(k) =~= ps);
    } else {
        lemma_params_desc_prefix(ps, k + 1);
        lemma_params_desc_take(ps, k);
        lemma_desc_nonempty(ps[k]);
        let a = params_desc(ps.take(k));
        let b = params_desc(ps.take(k + 1));
        let all = params_desc(ps);
        assert(all =~= a + all.subrange(a.len() as int, all.len() as int));
    }
}

proof fn lemma_params_desc_front(ps: Seq<TypeSignature>)
    requires
        ps.len() > 0,
    ensures
        params_desc(ps) == type_desc(ps[0]) + params_desc(ps.skip(1)),
    decreases ps.len(),
{
    if ps.len() == 1 {
        assert(ps.drop_last() =~= Seq::<TypeSignature>::empty());
        assert(ps.skip(1) =~= Seq::<TypeSignature>::empty());
        assert(params_desc(ps.drop_last()) =~= Seq::<char>::empty());
        assert(params_desc(ps) =~= type_desc(ps[0]));
    } else {
        lemma_params_desc_front(ps.drop_last());
        assert(ps.drop_last().skip(1) =~= ps.skip(1).drop_last());
        assert(ps.skip(1).last() == ps.last());
        assert(params_desc(ps) =~= type_desc(ps[0]) + params_desc(ps.skip(1)));
    }
}

/// Two parameter lists of field types whose descriptors, each followed by
/// `)`, start the same text are the same list.
proof fn lemma_params_unique(a: Seq<TypeSignature>, b: Seq<TypeSignature>, s: Seq<char>)
    requires
        forall|k: int| 0 <= k < a.len() ==> #[trigger] field_type(a[k]),
        forall|k: int| 0 <= k < b.len() ==> #[trigger] field_type(b[k]),
        params_desc(a).len() < s.len(),
        params_desc(b).len() < s.len(),
        s.subrange(0, params_desc(a).len() as int) == params_desc(a),
        s.subrange(0, params_desc(b).len() as int) == params_desc(b),
        s[params_desc(a).len() as int] == ')',
        s[params_desc(b).len() as int] == ')',
    ensures
        a.len() == b.len(),
        forall|k: int| 0 <= k < a.len() ==> same_type(#[trigger] a[k], b[k]),
        params_desc(a) == params_desc(b),
    decreases a.len(),
{
    if a.len() == 0 && b.len() == 0 {
        return;
    }
    if a.len() == 0 {
        lemma_params_desc_front(b);
        lemma_desc_nonempty(b[0]);
        assert(params_desc(b)[0] == type_desc(b[0])[0]);
        assert(s[0] == params_desc(b)[0]);
        assert(false);
    }
    if b.len() == 0 {
        lemma_params_desc_front(a);
        lemma_desc_nonempty(a[0]);
        assert(params_desc(a)[0] == type_desc(a[0])[0]);
        assert(s[0] == params_desc(a)[0]);
        assert(false);
    }
    lemma_params_desc_front(a);
    lemma_params_desc_front(b);
    let da = type_desc(a[0]);
    let db = type_desc(b[0]);
    assert(da =~= s.subrange(0, da.len() as int)) by {
        assert forall|m: int| 0 <= m < da.len() implies da[m] == s[m] by {
            assert(params_desc(a)[m] == da[m]);
            assert(s.subrange(0, params_desc(a).len() as int)[m] == s[m]);
        }
    }
    assert(db =~= s.subrange(0, db.len() as int)) by {
        assert forall|m: int| 0 <= m < db.len() implies db[m] == s[m] by {
            assert(params_desc(b)[m] == db[m]);
            assert(s.subrange(0, params_desc(b).len() as int)[m] == s[m]);
        }
    }
    assert(field_type(a[0]));
    assert(field_type(b[0]));
    lemma_prefix_unique(a[0], b[0], s);
    let rest = s.subrange(da.len() as int, s.len() as int);
    let a1 = a.skip(1);
    let b1 = b.skip(1);
    assert forall|k: int| 0 <= k < a1.len() implies #[trigger] field_type(a1[k]) by {
        assert(a1[k] == a[k + 1]);
    }
    assert forall|k: int| 0 <= k < b1.len() implies #[trigger] field_type(b1[k]) by {
        assert(b1[k] == b[k + 1]);
    }
    assert(rest.subrange(0, params_desc(a1).len() as int) =~= params_desc(a1)) by {
        assert forall|m: int| 0 <= m < params_desc(a1).len() implies rest[m] == params_desc(a1)[m] by {
            assert(params_desc(a)[da.len() + m] == params_desc(a1)[m]);
            assert(s.subrange(0, params_desc(a).len() as int)[da.len() + m] == s[da.len() + m]);
        }
    }
    assert(rest.subrange(0, params_desc(b1).len() as int) =~= params_desc(b1)) by {
        assert forall|m: int| 0 <= m < params_desc(b1).len() implies rest[m] == params_desc(b1)[m] by {
            assert(params_desc(b)[db.len() + m] == params_desc(b1)[m]);
            assert(s.subrange(0, params_desc(b).len() as int)[db.len() + m] == s[db.len() + m]);
        }
    }
    lemma_params_unique(a1, b1, rest);
    assert forall|k: int| 0 <= k < a.len() implies same_type(#[trigger] a[k], b[k]) by {
        if k > 0 {
            assert(a1[k - 1] == a[k]);
            assert(b1[k - 1] == b[k]);
        }
    }
}

/// Reading a method descriptor back from its text gives the signature it
/// was written from: the text is a method descriptor, and every method
/// signature with that text has the same parameters and return type.
pub proof fn lemma_method_descriptor_round_trip(m: MethodSignature)
    requires
        method_type(m),
    ensures
        is_method_desc(method_desc(m)),
        forall|u: MethodSignature|
            method_type(u) && #[trigger] method_desc(u) == method_desc(m) ==> u.parameters@.len()
                == m.parameters@.len() && (forall|k: int|
                0 <= k < u.parameters@.len() ==> same_type(u.parameters@[k], m.parameters@[k]))
                && same_type(u.return_type, m.return_type),
{
    assert forall|u: MethodSignature|
        method_type(u) && #[trigger] method_desc(u) == method_desc(m) implies u.parameters@.len()
            == m.parameters@.len() && (forall|k: int|
            0 <= k < u.parameters@.len() ==> same_type(u.parameters@[k], m.parameters@[k]))
            && same_type(u.return_type, m.return_type) by {
        let s = method_desc(m);
        lemma_method_desc_parts(m);
        lemma_method_desc_parts(u);
        let body = s.subrange(1, s.len() as int);
        let pu = params_desc(u.parameters@);
        let pm = params_desc(m.parameters@);
        assert(body.subrange(0, pu.len() as int) =~= pu);
        assert(body.subrange(0, pm.len() as int) =~= pm);
        assert(body[pu.len() as int] == s[1 + pu.len() as int]);
        assert(body[pm.len() as int] == s[1 + pm.len() as int]);
        lemma_params_unique(u.parameters@, m.parameters@, body);
        let ru = type_desc(u.return_type);
        let rm = type_desc(m.return_type);
        assert(ru == rm);
        if u.return_type is Void || m.return_type is Void {
            lemma_desc_nonempty(u.return_type);
            lemma_desc_nonempty(m.return_type);
        } else {
            assert(ru =~= ru.subrange(0, ru.len() as int));
            lemma_prefix_unique(u.return_type, m.return_type, ru);
        }
    }
}

/// Reads a method descriptor; fails exactly when `s` is not the descriptor
/// of a method signature.
pub fn parse_method_descriptor(s: &str) -> (r: Result<MethodSignature, DescriptorError>)
    ensures
        match r {
            Ok(m) => method_type(m) && method_desc(m) == s@,
            Err(_) => !is_method_desc(s@),
        },
{
    let n = s.unicode_len();
    let ghost has = is_method_desc(s@);
    let ghost w: MethodSignature = if has {
        choose|m: MethodSignature| method_type(m) && method_desc(m) == s@
    } else {
        arbitrary()
    };
    let ghost wp = w.parameters@;
    proof {
        if has {
            lemma_method_desc_parts(w);
            lemma_desc_nonempty(w.return_type);
            assert(s@[0] == '(');
        }
    }
    if n == 0 || s.get_char(0) != '(' {
        return Err(DescriptorError::BadDescriptor);
    }
    let mut params: Vec<TypeSignature> = Vec::new();
    let mut i: usize = 1;
    assert(params_desc(params@) =~= Seq::<char>::empty());
    assert(wp.take(0) =~= Seq::<TypeSignature>::empty());
    while i < n && s.get_char(i) != ')'
        invariant
            n == s@.len(),
            1 <= i <= n,
            s@[0] == '(',
            s@.subrange(1, i as int) == params_desc(params@),
            forall|k: int| 0 <= k < params@.len() ==> #[trigger] field_type(params@[k]),
            has ==> method_type(w) && method_desc(w) == s@,
            wp == w.parameters@,
            has == is_method_desc(s@),
            has ==> params@.len() <= wp.len() && params_desc(wp.take(params@.len() as int))
                == params_desc(params@),
        decreases n - i,
    {
        let ghost k = params@.len() as int;
        proof {
            if has {
                lemma_params_desc_prefix(wp, k);
                lemma_method_desc_parts(w);
                if k == wp.len() {
                    assert(wp.take(k) =~= wp);
                    assert(s@[i as int] == method_desc(w)[1 + params_desc(wp).len() as int]);
                    assert(method_desc(w)[1 + params_desc(wp).len() as int] == ')');
                    assert(false);
                }
            }
        }
        match parse_at(s, n, i) {
            Some((t, j)) => {
                proof {
                    lemma_params_desc_take(params@.push(t), k);
                    assert(params@.push(t).take(k) =~= params@);
                    assert(params@.push(t).take(k + 1) =~= params@.push(t));
                    assert(s@.subrange(1, j as int) =~= s@.subrange(1, i as int) + s@.subrange(
                        i as int,
                        j as int,
                    ));
                    if has {
                        let pk = wp[k];
                        lemma_params_desc_take(wp, k);
                        lemma_method_desc_parts(w);
                        assert(field_type(pk));
                        let dk = type_desc(pk);
                        let pre = params_desc(wp.take(k));
                        lemma_params_desc_prefix(wp, k + 1);
                        assert(s@.subrange(i as int, i + dk.len()) =~= dk) by {
                            assert forall|m: int| 0 <= m < dk.len() implies s@[i + m] == dk[m] by {
                                assert(method_desc(w)[1 + pre.len() as int + m] == params_desc(wp)[pre.len() as int + m]);
                                assert(params_desc(wp)[pre.len() as int + m] == params_desc(wp.take(k + 1))[pre.len() as int + m]);
                            }
                        }
                        let rest = s@.subrange(i as int, n as int);
                        assert(type_desc(t) =~= rest.subrange(0, type_desc(t).len() as int));
                        assert(dk =~= rest.subrange(0, dk.len() as int));
                        lemma_prefix_unique(t, pk, rest);
                    }
                }
                params.push(t);
                i = j;
            },
            None => {
                proof {
                    if has {
                        let pk = wp[k];
                        lemma_params_desc_take(wp, k);
                        lemma_method_desc_parts(w);
                        let dk = type_desc(pk);
                        let pre = params_desc(wp.take(k));
                        lemma_params_desc_prefix(wp, k + 1);
                        assert(s@.subrange(i as int, i + dk.len()) =~= dk) by {
                            assert forall|m: int| 0 <= m < dk.len() implies s@[i + m] == dk[m] by {
                                assert(method_desc(w)[1 + pre.len() as int + m] == params_desc(wp)[pre.len() as int + m]);
                                assert(params_desc(wp)[pre.len() as int + m] == params_desc(wp.take(k + 1))[pre.len() as int + m]);
                            }
                        }
                    }
                }
                return Err(DescriptorError::BadDescriptor);
            },
        }
    }
    if i >= n {
        proof {
            if has {
                lemma_params_desc_prefix(wp, params@.len() as int);
                lemma_method_desc_parts(w);
                lemma_desc_nonempty(w.return_type);
                assert(method_desc(w).len() == 2 + params_desc(wp).len() + type_desc(
                    w.return_type,
                ).len());
            }
        }
        return Err(DescriptorError::BadDescriptor);
    }
    proof {
        if has {
            let k = params@.len() as int;
            lemma_method_desc_parts(w);
            lemma_params_desc_prefix(wp, k);
            if k < wp.len() {
                lemma_params_desc_take(wp, k);
                lemma_params_desc_prefix(wp, k + 1);
                lemma_desc_nonempty(wp[k]);
                let pre = params_desc(wp.take(k));
                assert(method_desc(w)[1 + pre.len() as int] == params_desc(wp)[pre.len() as int]);
                assert(params_desc(wp)[pre.len() as int] == params_desc(wp.take(k + 1))[pre.len() as int]);
            }
            assert(k == wp.len());
            assert(wp.take(k) =~= wp);
        }
    }
    let ghost head = s@.subrange(0, i + 1);
    assert(head =~= seq!['('] + params_desc(params@) + seq![')']);
    let ret = if n - i == 2 && s.get_char(i + 1) == 'V' {
        proof {
            assert(s@ =~= head + seq!['V']);
        }
        TypeSignature::Void
    } else {
        match parse_at(s, n, i + 1) {
            Some((t, j)) => {
                if j != n {
                    proof {
                        if has {
                            let rest = s@.subrange(i + 1, n as int);
                            let dr = type_desc(w.return_type);
                            assert(s@ =~= head + dr);
                            assert(rest =~= dr);
                            if !(w.return_type is Void) {
                                assert(type_desc(t) =~= rest.subrange(0, type_desc(t).len() as int));
                                assert(dr =~= rest.subrange(0, dr.len() as int));
                                lemma_prefix_unique(t, w.return_type, rest);
                            } else {
                                assert(s@[i + 1] == 'L' || s@[i + 1] == '[' || type_desc(t).len() == 1);
                                lemma_desc_nonempty(t);
                                assert(s@[i + 1] == 'V');
                            }
                        }
                    }
                    return Err(DescriptorError::BadDescriptor);
                }
                proof {
                    assert(s@ =~= head + s@.subrange(i + 1, n as int));
                }
                t
            },
            None => {
                proof {
                    if has {
                        let dr = type_desc(w.return_type);
                        assert(s@ =~= head + dr);
                        assert(s@.subrange(i + 1, n as int) =~= dr);
                        if w.return_type is Void {
                            assert(s@[i + 1] == 'V');
                        } else {
                            assert(s@.subrange(i + 1, i + 1 + dr.len()) =~= dr);
                        }
                    }
                }
                return Err(DescriptorError::BadDescriptor);
            },
        }
    };
    let m = MethodSignature { parameters: params, return_type: ret };
    assert(m.parameters@ == params@);
    Ok(m)
}

impl PartialEq for TypeSignature {
    fn eq(&self, o: &TypeSignature) -> (r: bool)
        ensures
            r == same_type(*self, *o),
        decreases self,
    {
        match (self, o) {
            (TypeSignature::Class(a), TypeSignature::Class(b)) => *a == *b,
            (TypeSignature::Array(a), TypeSignature::Array(b)) => (**a).eq(&**b),
            (TypeSignature::Void, TypeSignature::Void) => true,
            (TypeSignature::Boolean, TypeSignature::Boolean) => true,
            (TypeSignature::Byte, TypeSignature::Byte) => true,
            (TypeSignature::Char, TypeSignature::Char) => true,
            (TypeSignature::Short, TypeSignature::Short) => true,
            (TypeSignature::Int, TypeSignature::Int) => true,
            (TypeSignature::Long, TypeSignature::Long) => true,
            (TypeSignature::Float, TypeSignature::Float) => true,
            (TypeSignature::Double, TypeSignature::Double) => true,
            _ => false,
        }
    }
}

impl vstd::std_specs::cmp::PartialEqSpecImpl for TypeSignature {
    open spec fn obeys_eq_spec() -> bool {
        true
    }

    open spec fn eq_spec(&self, o: &TypeSignature) -> bool {
        same_type(*self, *o)
    }
}

impl TypeSignature {
    /// The descriptor text of this type.
    pub fn to_descriptor(&self) -> (r: String)
        ensures
            r@ == type_desc(*self),
        decreases self,
    {
        proof {
            reveal_strlit("V");
            reveal_strlit("Z");
            reveal_strlit("B");
            reveal_strlit("C");
            reveal_strlit("S");
            reveal_strlit("I");
            reveal_strlit("J");
            reveal_strlit("F");
            reveal_strlit("D");
            reveal_strlit("L");
            reveal_strlit("[");
        }
        match self {
            TypeSignature::Void => letter("V"),
            TypeSignature::Boolean => letter("Z"),
            TypeSignature::Byte => letter("B"),
            TypeSignature::Char => letter("C"),
            TypeSignature::Short => letter("S"),
            TypeSignature::Int => letter("I"),
            TypeSignature::Long => letter("J"),
            TypeSignature::Float => letter("F"),
            TypeSignature::Double => letter("D"),
            TypeSignature::Class(name) => {
                let r = letter("L").concat(name.as_str()).concat(";");
                proof {
                    reveal_strlit(";");
                }
                r
            },
            TypeSignature::Array(inner) => {
                let d = (**inner).to_descriptor();
                letter("[").concat(d.as_str())
            },
        }
    }

    /// Same as `to_descriptor`: the display form of a type.
    pub fn to_string(&self) -> (r: String)
        ensures
            r@ == type_desc(*self),
    {
        self.to_descriptor()
    }
}

impl MethodSignature {
    /// The descriptor text of this method signature.
    pub fn to_descriptor(&self) -> (r: String)
        ensures
            r@ == method_desc(*self),
    {
        proof {
            reveal_strlit("(");
            reveal_strlit(")");
        }
        let mut acc = String::from_str("(");
        let mut k: usize = 0;
        while k < self.parameters.len()
            invariant
                k <= self.parameters@.len(),
                acc@ == seq!['('] + params_desc(self.parameters@.take(k as int)),
            decreases self.parameters@.len() - k,
        {
            let d = self.parameters[k].to_descriptor();
            acc.append(d.as_str());
            proof {
                let ps = self.parameters@;
                assert(ps.take(k + 1).drop_last() =~= ps.take(k as int));
                assert(ps.take(k + 1).last() == ps[k as int]);
            }
            k = k + 1;
        }
        assert(self.parameters@.take(k as int) =~= self.parameters@);
        acc.append(")");
        let d = self.return_type.to_descriptor();
        acc.append(d.as_str());
        acc
    }

    /// Same as `to_descriptor`: the display form of a method signature.
    pub fn to_string(&self) -> (r: String)
        ensures
            r@ == method_desc(*self),
    {
        self.to_descriptor()
    }
}

fn letter(l: &str) -> (r: String)
    requires
        l@.len() == 1,
    ensures
        r@ == l@,
        r@ == seq![l@[0]],
{
    let r = String::from_str(l);
    assert(r@ =~= seq![l@[0]]);
    r
}

} // verus!
