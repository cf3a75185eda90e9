use vstd::prelude::*;
use crate::value::{JavaException, Trap, VmError, VmValue};

verus! {

/// An array: its element type code (`None` for arrays of references) and
/// its elements.
pub struct ArrayInstance {
    pub atype: Option<u8>,
    pub elements: Vec<VmValue>,
}

/// An object: the name of its class and its fields by name.
pub struct Instance {
    pub class_name: String,
    pub fields: Vec<(String, VmValue)>,
}

pub enum HeapObject {
    Instance(Instance),
    Array(ArrayInstance),
}

/// Owner of every object and array; a reference is an index into `objects`.
pub struct Heap {
    pub objects: Vec<HeapObject>,
}

/// The zero value that a new array of the given type code holds.
pub open spec fn array_default(atype: Option<u8>) -> VmValue {
    match atype {
        Some(t) => if t == 6 {
            VmValue::Float(0)
        } else if t == 7 {
            VmValue::Double(0)
        } else if t == 11 {
            VmValue::Long(0)
        } else {
            VmValue::Int(0)
        },
        None => VmValue::Null,
    }
}

impl Heap {
    /// The type code and elements of the array at handle `h`, if `h` is one.
    pub open spec fn array_at(&self, h: int) -> Option<(Option<u8>, Seq<VmValue>)> {
        if 0 <= h < self.objects@.len() {
            match self.objects@[h] {
                HeapObject::Array(a) => Some((a.atype, a.elements@)),
                _ => None,
            }
        } else {
            None
        }
    }

    pub fn new() -> (r: Heap)
        ensures
            r.objects@.len() == 0,
    {
        Heap { objects: Vec::new() }
    }

    /// Allocates an array of `length` zero elements and returns its handle.
    pub fn alloc_array(&mut self, atype: Option<u8>, length: usize) -> (r: usize)
        ensures
            r == old(self).objects@.len(),
            final(self).objects@.len() == old(self).objects@.len() + 1,
            forall|k: int| 0 <= k < r ==> final(self).objects@[k] == old(self).objects@[k],
            final(self).array_at(r as int) == Some(
                (atype, Seq::new(length as nat, |k: int| array_default(atype))),
            ),
    {
        let zero = match atype {
            Some(t) => if t == 6 {
                VmValue::Float(0)
            } else if t == 7 {
                VmValue::Double(0)
            } else if t == 11 {
                VmValue::Long(0)
            } else {
                VmValue::Int(0)
            },
            None => VmValue::Null,
        };
        let mut elements: Vec<VmValue> = Vec::new();
        let mut k: usize = 0;
        while k < length
            invariant
                k <= length,
                zero == array_default(atype),
                elements@ == Seq::new(k as nat, |m: int| array_default(atype)),
            decreases length - k,
        {
            elements.push(zero);
            k = k + 1;
        }
        let r = self.objects.len();
        self.objects.push(HeapObject::Array(ArrayInstance { atype, elements }));
        r
    }

    /// Allocates an object of the named class, with no field set yet.
    pub fn alloc_instance(&mut self, class_name: String) -> (r: usize)
        ensures
            r == old(self).objects@.len(),
            final(self).objects@.len() == old(self).objects@.len() + 1,
            forall|k: int| 0 <= k < r ==> final(self).objects@[k] == old(self).objects@[k],
            match final(self).objects@[r as int] {
                HeapObject::Instance(o) => o.class_name == class_name && o.fields@.len() == 0,
                _ => false,
            },
    {
        let r = self.objects.len();
        self.objects.push(HeapObject::Instance(Instance { class_name, fields: Vec::new() }));
        r
    }

    /// Writes element `index` of the array at `h`, which must have type code
    /// `atype`. An index outside the array raises
    /// `ArrayIndexOutOfBoundsException`; on any failure the heap is unchanged.
    pub fn array_store(&mut self, h: usize, atype: u8, index: i32, v: VmValue) -> (r: Result<
        (),
        Trap,
    >)
        ensures
            match old(self).array_at(h as int) {
                None => r == Err::<(), Trap>(Trap::Bug(VmError::BadHeapReference)) && final(self).objects@ == old(self).objects@,
                Some((t, els)) => if t != Some(atype) {
                    r == Err::<(), Trap>(Trap::Bug(VmError::TypeMismatch)) && final(self).objects@
                        == old(self).objects@
                } else if index < 0 || index >= els.len() {
                    r == Err::<(), Trap>(Trap::Throw(JavaException::ArrayIndexOutOfBounds))
                        && final(self).objects@ == old(self).objects@
                } else {
                    r is Ok && final(self).objects@.len() == old(self).objects@.len() && (forall|
                        k: int,
                    |
                        0 <= k < old(self).objects@.len() && k != h ==> final(self).objects@[k]
                            == old(self).objects@[k]) && final(self).array_at(h as int) == Some(
                        (t, els.update(index as int, v)),
                    )
                },
            },
    {
        if h >= self.objects.len() {
            return Err(Trap::Bug(VmError::BadHeapReference));
        }
        let check: u8 = match &self.objects[h] {
            HeapObject::Array(a) => {
                let same = match a.atype {
                    Some(t) => t == atype,
                    None => false,
                };
                if !same {
                    1
                } else if index < 0 || index as usize >= a.elements.len() {
                    2
                } else {
                    0
                }
            },
            HeapObject::Instance(_) => 3,
        };
        if check == 3 {
            return Err(Trap::Bug(VmError::BadHeapReference));
        } else if check == 1 {
            return Err(Trap::Bug(VmError::TypeMismatch));
        } else if check == 2 {
            return Err(Trap::Throw(JavaException::ArrayIndexOutOfBounds));
        }
        let mut slot = HeapObject::Array(ArrayInstance { atype: None, elements: Vec::new() });
        self.objects.set_and_swap(h, &mut slot);
        match slot {
            HeapObject::Array(a) => {
                let mut a = a;
                a.elements.set(index as usize, v);
                self.objects.set(h, HeapObject::Array(a));
            },
            HeapObject::Instance(o) => {
                self.objects.set(h, HeapObject::Instance(o));
            },
        }
        Ok(())
    }
}

} // verus!
