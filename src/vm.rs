use vstd::prelude::*;
use crate::descriptor::field_type;
use crate::heap::Heap;
use crate::model::{ClassField, JvmClass, TypeSignature};
use crate::value::VmValue;

verus! {

/// Where a loaded class stands in its initialization.
#[derive(Clone, Copy, Debug, PartialEq, Eq, Structural)]
pub enum InitPhase {
    Loaded,
    Initializing,
    Initialized,
    Erroneous,
}

/// A static field of a loaded class and its current value.
pub struct StaticField {
    pub name: String,
    pub value: VmValue,
}

/// A class entry of the method area.
pub struct LoadedClass {
    pub name: String,
    pub super_class: Option<String>,
    pub phase: InitPhase,
    pub statics: Vec<StaticField>,
}

/// The process-wide state: the method area (with each class's static
/// fields) and the heap.
pub struct Vm {
    pub classes: Vec<LoadedClass>,
    pub heap: Heap,
}

/// What the caller of `begin_initialization` must do next.
#[derive(Clone, Debug)]
pub enum InitStep {
    /// No class of that name is loaded: load it, then ask again.
    NotLoaded,
    /// The class may be used now: it is initialized, or this thread is
    /// already initializing it.
    Ready,
    /// The class is now marked initializing: initialize its superclass (if
    /// any), run its `<clinit>`, then call `finish_initialization`.
    RunInitializer(Option<String>),
    /// An earlier initialization failed; every use of the class fails.
    Failed,
}

/// The last index of a class named `n`.
pub open spec fn find_class(cs: Seq<LoadedClass>, n: Seq<char>) -> Option<int>
    decreases cs.len(),
{
    if cs.len() == 0 {
        None
    } else if cs.last().name@ == n {
        Some(cs.len() - 1)
    } else {
        find_class(cs.drop_last(), n)
    }
}

/// The last index of a static field named `n`.
pub open spec fn find_static(fs: Seq<StaticField>, n: Seq<char>) -> Option<int>
    decreases fs.len(),
{
    if fs.len() == 0 {
        None
    } else if fs.last().name@ == n {
        Some(fs.len() - 1)
    } else {
        find_static(fs.drop_last(), n)
    }
}

proof fn lemma_find_class_range(cs: Seq<LoadedClass>, n: Seq<char>)
    ensures
        find_class(cs, n) matches Some(i) ==> 0 <= i < cs.len() && cs[i].name@ == n,
        find_class(cs, n) is None ==> forall|i: int| 0 <= i < cs.len() ==> cs[i].name@ != n,
    decreases cs.len(),
{
    if cs.len() > 0 {
        lemma_find_class_range(cs.drop_last(), n);
        if find_class(cs, n) is None {
            assert forall|i: int| 0 <= i < cs.len() implies cs[i].name@ != n by {
                if i < cs.len() - 1 {
                    assert(cs.drop_last()[i] == cs[i]);
                }
            }
        }
    }
}

proof fn lemma_find_class_same_names(a: Seq<LoadedClass>, b: Seq<LoadedClass>, n: Seq<char>)
    requires
        a.len() == b.len(),
        forall|k: int| 0 <= k < a.len() ==> #[trigger] a[k].name == b[k].name,
    ensures
        find_class(a, n) == find_class(b, n),
    decreases a.len(),
{
    if a.len() > 0 {
        assert(a.last().name == b.last().name);
        lemma_find_class_same_names(a.drop_last(), b.drop_last(), n);
    }
}

proof fn lemma_find_static_same_names(a: Seq<StaticField>, b: Seq<StaticField>, n: Seq<char>)
    requires
        a.len() == b.len(),
        forall|k: int| 0 <= k < a.len() ==> #[trigger] a[k].name == b[k].name,
    ensures
        find_static(a, n) == find_static(b, n),
    decreases a.len(),
{
    if a.len() > 0 {
        assert(a.last().name == b.last().name);
        lemma_find_static_same_names(a.drop_last(), b.drop_last(), n);
    }
}

proof fn lemma_find_static_range(fs: Seq<StaticField>, n: Seq<char>)
    ensures
        find_static(fs, n) matches Some(i) ==> 0 <= i < fs.len() && fs[i].name@ == n,
    decreases fs.len(),
{
    if fs.len() > 0 {
        lemma_find_static_range(fs.drop_last(), n);
    }
}

/// A static field of a class as `define_class` lays it out holds the default
/// value of its declared type. `begin_initialization` keeps the statics as
/// they are, and `getstatic` reads a class that is being initialized as it
/// stands. So a read made while the class's initializer runs, before the
/// initializer writes the field, gives that default.
pub proof fn lemma_fresh_static_is_default(ss: Seq<StaticField>, fields: Seq<ClassField>, f: Seq<char>, k: int)
    requires
        statics_view(ss) == static_defaults(fields),
        find_static(ss, f) == Some(k),
    ensures
        exists|j: int|
            0 <= j < fields.len() && fields[j].access_flags & STATIC_FIELD_BIT != 0
                && #[trigger] fields[j].name@ == f && ss[k].value == default_value(
                fields[j].descriptor,
            ),
    decreases fields.len(),
{
    lemma_find_static_range(ss, f);
    if fields.len() == 0 {
        assert(statics_view(ss).len() == 0);
        assert(false);
    }
    let prev = fields.drop_last();
    let last = fields.last();
    if last.access_flags & STATIC_FIELD_BIT != 0 {
        let n = ss.len();
        assert(static_defaults(fields) == static_defaults(prev).push(
            (last.name@, default_value(last.descriptor)),
        ));
        assert(static_defaults(prev) =~= static_defaults(fields).drop_last());
        assert(statics_view(ss).len() == n);
        assert(statics_view(ss.drop_last()) =~= statics_view(ss).drop_last());
        assert(statics_view(ss)[n - 1] == (ss[n - 1].name@, ss[n - 1].value));
        if ss.last().name@ == f {
            assert(k == n - 1);
            let j = fields.len() - 1;
            assert(fields[j].name@ == f);
        } else {
            lemma_fresh_static_is_default(ss.drop_last(), prev, f, k);
            let j = choose|j: int|
                0 <= j < prev.len() && prev[j].access_flags & STATIC_FIELD_BIT != 0
                    && #[trigger] prev[j].name@ == f && ss.drop_last()[k].value == default_value(
                    prev[j].descriptor,
                );
            assert(fields[j] == prev[j]);
        }
    } else {
        lemma_fresh_static_is_default(ss, prev, f, k);
        let j = choose|j: int|
            0 <= j < prev.len() && prev[j].access_flags & STATIC_FIELD_BIT != 0
                && #[trigger] prev[j].name@ == f && ss[k].value == default_value(prev[j].descriptor);
        assert(fields[j] == prev[j]);
    }
}

/// The value a static field holds before any initializer has set it.
pub open spec fn default_value(t: TypeSignature) -> VmValue {
    match t {
        TypeSignature::Long => VmValue::Long(0),
        TypeSignature::Float => VmValue::Float(0),
        TypeSignature::Double => VmValue::Double(0),
        TypeSignature::Class(_) => VmValue::Null,
        TypeSignature::Array(_) => VmValue::Null,
        _ => VmValue::Int(0),
    }
}

/// The static fields of a field list, in order, as name and default value.
pub open spec fn static_defaults(fs: Seq<ClassField>) -> Seq<(Seq<char>, VmValue)>
    decreases fs.len(),
{
    if fs.len() == 0 {
        Seq::empty()
    } else if fs.last().access_flags & STATIC_FIELD_BIT != 0 {
        static_defaults(fs.drop_last()).push((fs.last().name@, default_value(fs.last().descriptor)))
    } else {
        static_defaults(fs.drop_last())
    }
}

/// Name and value of each static field.
pub open spec fn statics_view(ss: Seq<StaticField>) -> Seq<(Seq<char>, VmValue)> {
    ss.map_values(|s: StaticField| (s.name@, s.value))
}

/// Bit of a field's access flags that marks it static.
pub const STATIC_FIELD_BIT: u16 = 0x0008;

/// The phase of the class named `n` in a VM.
pub open spec fn class_phase(vm: &Vm, n: Seq<char>) -> Option<InitPhase> {
    match find_class(vm.classes@, n) {
        Some(i) => Some(vm.classes@[i].phase),
        None => None,
    }
}

/// The value of static field `f` of class `c`.
pub open spec fn static_value(vm: &Vm, c: Seq<char>, f: Seq<char>) -> Option<VmValue> {
    match find_class(vm.classes@, c) {
        Some(i) => match find_static(vm.classes@[i].statics@, f) {
            Some(k) => Some(vm.classes@[i].statics@[k].value),
            None => None,
        },
        None => None,
    }
}

pub fn default_for(t: &TypeSignature) -> (r: VmValue)
    ensures
        r == default_value(*t),
{
    match t {
        TypeSignature::Long => VmValue::Long(0),
        TypeSignature::Float => VmValue::Float(0),
        TypeSignature::Double => VmValue::Double(0),
        TypeSignature::Class(_) => VmValue::Null,
        TypeSignature::Array(_) => VmValue::Null,
        _ => VmValue::Int(0),
    }
}

/// Index of the static field named `field`, if there is one.
fn static_slot(statics: &Vec<StaticField>, field: &String) -> (r: Option<usize>)
    ensures
        r matches Some(k) ==> find_static(statics@, field@) == Some(k as int) && k
            < statics@.len(),
        r is None ==> find_static(statics@, field@) is None,
{
    proof {
        lemma_find_static_range(statics@, field@);
    }
    let mut k: usize = statics.len();
    assert(statics@.take(k as int) =~= statics@);
    while k > 0
        invariant
            k <= statics@.len(),
            find_static(statics@, field@) == find_static(statics@.take(k as int), field@),
        decreases k,
    {
        proof {
            assert(statics@.take(k as int).drop_last() =~= statics@.take(k - 1));
        }
        if statics[k - 1].name == *field {
            assert(statics@.take(k as int).last() == statics@[k - 1]);
            return Some(k - 1);
        }
        k = k - 1;
    }
    None
}

impl Vm {
    pub fn new() -> (r: Vm)
        ensures
            r.classes@.len() == 0,
            r.heap.objects@.len() == 0,
    {
        Vm { classes: Vec::new(), heap: Heap::new() }
    }

    /// Index of the class named `name`, if it is loaded.
    pub fn class_index(&self, name: &String) -> (r: Option<usize>)
        ensures
            r matches Some(i) ==> find_class(self.classes@, name@) == Some(i as int) && i
                < self.classes@.len() && self.classes@[i as int].name@ == name@,
            r is None ==> find_class(self.classes@, name@) is None,
    {
        proof {
            lemma_find_class_range(self.classes@, name@);
        }
        let mut k: usize = self.classes.len();
        assert(self.classes@.take(k as int) =~= self.classes@);
        while k > 0
            invariant
                k <= self.classes@.len(),
                find_class(self.classes@, name@) == find_class(self.classes@.take(k as int), name@),
                find_class(self.classes@, name@) matches Some(i) ==> 0 <= i < self.classes@.len(),
            decreases k,
        {
            proof {
                assert(self.classes@.take(k as int).drop_last() =~= self.classes@.take(k - 1));
            }
            if self.classes[k - 1].name == *name {
                return Some(k - 1);
            }
            k = k - 1;
        }
        None
    }

    /// Puts a decoded class into the method area in phase `Loaded`, with
    /// each of its static fields at its default value. A class already
    /// loaded under that name is left as it is.
    pub fn define_class(&mut self, class: &JvmClass) -> (r: usize)
        ensures
            final(self).heap == old(self).heap,
            find_class(old(self).classes@, class.this_class@) matches Some(i) ==> r == i
                && final(self).classes@ == old(self).classes@,
            find_class(old(self).classes@, class.this_class@) is None ==> ({
                let e = final(self).classes@[r as int];
                &&& r == old(self).classes@.len()
                &&& final(self).classes@.drop_last() == old(self).classes@
                &&& final(self).classes@.len() == old(self).classes@.len() + 1
                &&& e.name == class.this_class
                &&& e.super_class == class.super_class
                &&& e.phase == InitPhase::Loaded
                &&& statics_view(e.statics@) == static_defaults(class.fields@)
            }),
    {
        match self.class_index(&class.this_class) {
            Some(i) => return i,
            None => {},
        }
        let mut statics: Vec<StaticField> = Vec::new();
        let mut j: usize = 0;
        while j < class.fields.len()
            invariant
                j <= class.fields@.len(),
                statics_view(statics@) == static_defaults(class.fields@.take(j as int)),
            decreases class.fields@.len() - j,
        {
            let f = &class.fields[j];
            if f.access_flags & STATIC_FIELD_BIT != 0 {
                let v = default_for(&f.descriptor);
                statics.push(StaticField { name: f.name.clone(), value: v });
            }
            proof {
                assert(class.fields@.take(j + 1).drop_last() =~= class.fields@.take(j as int));
                assert(statics_view(statics@) =~= static_defaults(class.fields@.take(j + 1)));
            }
            j = j + 1;
        }
        assert(class.fields@.take(j as int) =~= class.fields@);
        let r = self.classes.len();
        let sup = match &class.super_class {
            Some(s) => Some(s.clone()),
            None => None,
        };
        self.classes.push(
            LoadedClass {
                name: class.this_class.clone(),
                super_class: sup,
                phase: InitPhase::Loaded,
                statics,
            },
        );
        assert(self.classes@.drop_last() =~= old(self).classes@);
        r
    }

    /// Sets the phase of the class at index `i`, leaving all else as it was.
    fn set_phase(&mut self, i: usize, p: InitPhase)
        requires
            i < old(self).classes@.len(),
        ensures
            final(self).heap == old(self).heap,
            final(self).classes@.len() == old(self).classes@.len(),
            forall|k: int|
                0 <= k < old(self).classes@.len() && k != i ==> final(self).classes@[k] == old(
                    self
                ).classes@[k],
            final(self).classes@[i as int].phase == p,
            final(self).classes@[i as int].name == old(self).classes@[i as int].name,
            final(self).classes@[i as int].super_class == old(self).classes@[i as int].super_class,
            final(self).classes@[i as int].statics == old(self).classes@[i as int].statics,
    {
        let mut entry = LoadedClass {
            name: String::new(),
            super_class: None,
            phase: p,
            statics: Vec::new(),
        };
        self.classes.set_and_swap(i, &mut entry);
        entry.phase = p;
        self.classes.set(i, entry);
    }

    /// Starts initializing the class named `name`, or says why it need not
    /// or cannot be. Only a class in phase `Loaded` moves, to `Initializing`;
    /// a class being initialized is ready to its (single) initializing
    /// thread, which makes initialization reentrant.
    pub fn begin_initialization(&mut self, name: &String) -> (r: InitStep)
        ensures
            final(self).heap == old(self).heap,
            match class_phase(old(self), name@) {
                None => r is NotLoaded && final(self).classes@ == old(self).classes@,
                Some(InitPhase::Initialized) => r is Ready && final(self).classes@ == old(
                    self
                ).classes@,
                Some(InitPhase::Initializing) => r is Ready && final(self).classes@ == old(
                    self
                ).classes@,
                Some(InitPhase::Erroneous) => r is Failed && final(self).classes@ == old(
                    self
                ).classes@,
                Some(InitPhase::Loaded) => {
                    let i = find_class(old(self).classes@, name@)->Some_0;
                    &&& r matches InitStep::RunInitializer(sup) && sup == old(
                        self
                    ).classes@[i].super_class
                    &&& class_phase(final(self), name@) == Some(InitPhase::Initializing)
                    &&& final(self).classes@.len() == old(self).classes@.len()
                    &&& forall|k: int|
                        0 <= k < old(self).classes@.len() && k != i ==> final(self).classes@[k]
                            == old(self).classes@[k]
                    &&& final(self).classes@[i].name == old(self).classes@[i].name
                    &&& final(self).classes@[i].statics == old(self).classes@[i].statics
                },
            },
    {
        let i = match self.class_index(name) {
            Some(i) => i,
            None => return InitStep::NotLoaded,
        };
        proof {
            lemma_find_class_range(self.classes@, name@);
        }
        match self.classes[i].phase {
            InitPhase::Initialized => InitStep::Ready,
            InitPhase::Initializing => InitStep::Ready,
            InitPhase::Erroneous => InitStep::Failed,
            InitPhase::Loaded => {
                let sup = match &self.classes[i].super_class {
                    Some(s) => Some(s.clone()),
                    None => None,
                };
                self.set_phase(i, InitPhase::Initializing);
                proof {
                    lemma_find_class_same_names(old(self).classes@, self.classes@, name@);
                }
                InitStep::RunInitializer(sup)
            },
        }
    }

    /// Ends the initialization of the class named `name`: it becomes
    /// `Initialized` if its initializer succeeded, else `Erroneous`. A class
    /// that is not being initialized is left as it is.
    pub fn finish_initialization(&mut self, name: &String, succeeded: bool)
        ensures
            final(self).heap == old(self).heap,
            class_phase(old(self), name@) == Some(InitPhase::Initializing) ==> ({
                let i = find_class(old(self).classes@, name@)->Some_0;
                &&& class_phase(final(self), name@) == Some(
                    if succeeded {
                        InitPhase::Initialized
                    } else {
                        InitPhase::Erroneous
                    },
                )
                &&& final(self).classes@.len() == old(self).classes@.len()
                &&& forall|k: int|
                    0 <= k < old(self).classes@.len() && k != i ==> final(self).classes@[k]
                        == old(self).classes@[k]
                &&& final(self).classes@[i].name == old(self).classes@[i].name
                &&& final(self).classes@[i].statics == old(self).classes@[i].statics
            }),
            class_phase(old(self), name@) != Some(InitPhase::Initializing) ==> final(
                self
            ).classes@ == old(self).classes@,
    {
        let i = match self.class_index(name) {
            Some(i) => i,
            None => return ,
        };
        proof {
            lemma_find_class_range(self.classes@, name@);
        }
        if self.classes[i].phase == InitPhase::Initializing {
            let p = if succeeded {
                InitPhase::Initialized
            } else {
                InitPhase::Erroneous
            };
            self.set_phase(i, p);
            proof {
                lemma_find_class_same_names(old(self).classes@, self.classes@, name@);
            }
        }
    }

    /// The value of static field `field` of class `class`.
    pub fn get_static(&self, class: &String, field: &String) -> (r: Option<VmValue>)
        ensures
            r == static_value(self, class@, field@),
    {
        let i = match self.class_index(class) {
            Some(i) => i,
            None => return None,
        };
        proof {
            lemma_find_class_range(self.classes@, class@);
        }
        match static_slot(&self.classes[i].statics, field) {
            Some(k) => Some(self.classes[i].statics[k].value),
            None => None,
        }
    }

    /// Sets static field `field` of class `class` to `v`; fails, changing
    /// nothing, where the class has no such field.
    pub fn put_static(&mut self, class: &String, field: &String, v: VmValue) -> (r: bool)
        ensures
            final(self).heap == old(self).heap,
            r == (static_value(old(self), class@, field@) is Some),
            r ==> static_value(final(self), class@, field@) == Some(v),
            r ==> forall|c: Seq<char>| #[trigger] class_phase(final(self), c) == class_phase(old(self), c),
            !r ==> final(self).classes@ == old(self).classes@,
    {
        let i = match self.class_index(class) {
            Some(i) => i,
            None => return false,
        };
        let mut entry = LoadedClass {
            name: String::new(),
            super_class: None,
            phase: InitPhase::Loaded,
            statics: Vec::new(),
        };
        self.classes.set_and_swap(i, &mut entry);
        let ghost taken = entry;
        let found = static_slot(&entry.statics, field);
        proof {
            lemma_find_class_range(old(self).classes@, class@);
        }
        match found {
            Some(j) => {
                let mut sf = StaticField { name: String::new(), value: v };
                entry.statics.set_and_swap(j, &mut sf);
                sf.value = v;
                entry.statics.set(j, sf);
                self.classes.set(i, entry);
                proof {
                    assert(self.classes@ =~= old(self).classes@.update(i as int, self.classes@[i as int]));
                    lemma_find_class_same_names(old(self).classes@, self.classes@, class@);
                    lemma_find_static_same_names(taken.statics@, self.classes@[i as int].statics@, field@);
                    assert forall|c: Seq<char>| #[trigger] class_phase(self, c) == class_phase(old(self), c) by {
                        lemma_find_class_same_names(old(self).classes@, self.classes@, c);
                        lemma_find_class_range(self.classes@, c);
                    }
                }
                true
            },
            None => {
                self.classes.set(i, entry);
                proof {
                    assert(self.classes@ =~= old(self).classes@);
                }
                false
            },
        }
    }
}

} // verus!
