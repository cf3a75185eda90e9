use vstd::prelude::*;
use crate::model::ExceptionTable;
use crate::vm::{find_class, Vm};

verus! {

/// Class `c` is `a` or has `a` among its loaded superclasses, found within
/// `fuel` steps up the chain.
pub open spec fn subclass_within(vm: &Vm, c: Seq<char>, a: Seq<char>, fuel: nat) -> bool
    decreases fuel,
{
    if c == a {
        true
    } else if fuel == 0 {
        false
    } else {
        match find_class(vm.classes@, c) {
            Some(i) => match vm.classes@[i].super_class {
                Some(s) => subclass_within(vm, s@, a, (fuel - 1) as nat),
                None => false,
            },
            None => false,
        }
    }
}

/// Class `c` is `a` or a subclass of it. A chain of superclasses has no more
/// links than there are loaded classes, unless it loops.
pub open spec fn is_subclass(vm: &Vm, c: Seq<char>, a: Seq<char>) -> bool {
    subclass_within(vm, c, a, vm.classes@.len())
}

/// The handler entry covers `pc` and catches an exception of class `thrown`.
pub open spec fn handles(vm: &Vm, e: ExceptionTable, pc: int, thrown: Seq<char>) -> bool {
    e.start_pc <= pc < e.end_pc && match e.catch_type {
        None => true,
        Some(t) => is_subclass(vm, thrown, t@),
    }
}

/// The first entry from `k` on that handles the exception.
pub open spec fn first_handler(vm: &Vm, table: Seq<ExceptionTable>, pc: int, thrown: Seq<char>, k: int) -> Option<int>
    decreases table.len() - k,
{
    if k < 0 || k >= table.len() {
        None
    } else if handles(vm, table[k], pc, thrown) {
        Some(k)
    } else {
        first_handler(vm, table, pc, thrown, k + 1)
    }
}

/// Whether class `c` is `a` or a subclass of it.
pub fn subclass_of(vm: &Vm, c: &String, a: &String) -> (r: bool)
    ensures
        r == is_subclass(vm, c@, a@),
{
    let mut cur = c.clone();
    let mut fuel: usize = vm.classes.len();
    while cur != *a && fuel > 0
        invariant
            fuel <= vm.classes@.len(),
            is_subclass(vm, c@, a@) == subclass_within(vm, cur@, a@, fuel as nat),
        decreases fuel,
    {
        let i = match vm.class_index(&cur) {
            Some(i) => i,
            None => return false,
        };
        match &vm.classes[i].super_class {
            Some(s) => {
                cur = s.clone();
            },
            None => return false,
        }
        fuel = fuel - 1;
    }
    cur == *a
}

/// The handler pc of the first exception-table entry that covers `pc` and
/// catches an exception of class `thrown`.
pub fn find_handler(vm: &Vm, table: &Vec<ExceptionTable>, pc: u16, thrown: &String) -> (r: Option<u16>)
    ensures
        match first_handler(vm, table@, pc as int, thrown@, 0) {
            Some(k) => r == Some(table@[k].handler_pc),
            None => r is None,
        },
{
    let mut k: usize = 0;
    while k < table.len()
        invariant
            k <= table@.len(),
            first_handler(vm, table@, pc as int, thrown@, 0) == first_handler(
                vm,
                table@,
                pc as int,
                thrown@,
                k as int,
            ),
        decreases table@.len() - k,
    {
        let e = &table[k];
        if e.start_pc <= pc && pc < e.end_pc {
            let caught = match &e.catch_type {
                None => true,
                Some(t) => subclass_of(vm, thrown, t),
            };
            if caught {
                return Some(e.handler_pc);
            }
        }
        k = k + 1;
    }
    None
}

} // verus!
