use vstd::prelude::*;

use vstd::arithmetic::div_mod::lemma_add_mod_noop;

use crate::cpu::instructions::{pop, push, stack_address};
use crate::cpu::CpuState;

verus! {

/// The stack pointer moved by `k` slots, wrapping within the page.
pub open spec fn sp_offset(sp: u8, k: int) -> u8 {
    ((sp as int + k) % 256) as u8
}

/// The state after pushing `bytes` in order, first byte first.
pub open spec fn push_all(s: CpuState, bytes: Seq<u8>) -> CpuState
    decreases bytes.len(),
{
    if bytes.len() == 0 {
        s
    } else {
        push(push_all(s, bytes.drop_last()), bytes.last())
    }
}

/// The state after `n` pops and the bytes they returned, in order.
pub open spec fn pop_n(s: CpuState, n: nat) -> (CpuState, Seq<u8>)
    decreases n,
{
    if n == 0 {
        (s, Seq::empty())
    } else {
        let (s1, v) = pop(s);
        let (s2, rest) = pop_n(s1, (n - 1) as nat);
        (s2, seq![v] + rest)
    }
}

proof fn lemma_sp_offset_add(sp: u8, x: int, y: int)
    ensures
        sp_offset(sp_offset(sp, x), y) == sp_offset(sp, x + y),
{
    lemma_add_mod_noop(sp as int + x, y, 256);
    assert((sp as int + x) % 256 % 256 == (sp as int + x) % 256) by {
        lemma_add_mod_noop(sp as int + x, 0, 256);
    }
}

proof fn lemma_push_all(s: CpuState, bytes: Seq<u8>)
    requires
        s.mem.ram.len() == 2048,
        bytes.len() <= 256,
    ensures
        ({
            let t = push_all(s, bytes);
            &&& t.stack_pointer == sp_offset(s.stack_pointer, -bytes.len())
            &&& t.mem.ram.len() == 2048
            &&& forall|i: int|
                0 <= i < bytes.len() ==> t.mem.ram[stack_address(
                    #[trigger] sp_offset(s.stack_pointer, -i),
                ) as int] == bytes[i]
        }),
    decreases bytes.len(),
{
    if bytes.len() == 0 {
        assert(sp_offset(s.stack_pointer, 0) == s.stack_pointer);
    } else {
        let n = bytes.len() as int;
        let prefix = bytes.drop_last();
        lemma_push_all(s, prefix);
        let p = push_all(s, prefix);
        lemma_sp_offset_add(s.stack_pointer, -(n - 1), -1);
        assert(p.stack_pointer.wrapping_sub(1) == sp_offset(p.stack_pointer, -1));
        let t = push_all(s, bytes);
        assert forall|i: int| 0 <= i < n implies t.mem.ram[stack_address(
            #[trigger] sp_offset(s.stack_pointer, -i),
        ) as int] == bytes[i] by {
            if i < n - 1 {
                assert(sp_offset(s.stack_pointer, -i) != sp_offset(s.stack_pointer, -(n - 1)));
                assert(prefix[i] == bytes[i]);
            }
        }
    }
}

proof fn lemma_pop_n(t: CpuState, n: nat)
    ensures
        ({
            let (u, out) = pop_n(t, n);
            &&& out.len() == n
            &&& u == CpuState { stack_pointer: sp_offset(t.stack_pointer, n as int), ..t }
            &&& forall|j: int|
                0 <= j < n ==> out[j] == t.mem.ram[stack_address(
                    #[trigger] sp_offset(t.stack_pointer, j + 1),
                ) as int]
        }),
    decreases n,
{
    if n == 0 {
        assert(sp_offset(t.stack_pointer, 0) == t.stack_pointer);
    } else {
        let (t1, v) = pop(t);
        assert(t1.stack_pointer == sp_offset(t.stack_pointer, 1));
        lemma_pop_n(t1, (n - 1) as nat);
        lemma_sp_offset_add(t.stack_pointer, 1, n - 1);
        let (u, out) = pop_n(t, n);
        let rest = pop_n(t1, (n - 1) as nat).1;
        assert forall|j: int| 0 <= j < n implies out[j] == t.mem.ram[stack_address(
            #[trigger] sp_offset(t.stack_pointer, j + 1),
        ) as int] by {
            if j > 0 {
                lemma_sp_offset_add(t.stack_pointer, 1, j);
                assert(out[j] == rest[j - 1]);
                assert(rest[j - 1] == t1.mem.ram[stack_address(
                    sp_offset(t1.stack_pointer, (j - 1) + 1),
                ) as int]);
            } else {
                assert(out[0] == v);
            }
        }
    }
}

/// Pushing any sequence of at most 256 bytes and popping as many gives
/// them back in reverse order and restores the stack pointer; the pointer
/// wraps within page one.
pub proof fn lemma_stack_round_trip(s: CpuState, bytes: Seq<u8>)
    requires
        s.mem.ram.len() == 2048,
        bytes.len() <= 256,
    ensures
        pop_n(push_all(s, bytes), bytes.len()).1 == bytes.reverse(),
        pop_n(push_all(s, bytes), bytes.len()).0.stack_pointer == s.stack_pointer,
        forall|sp: u8| 0x0100 <= #[trigger] stack_address(sp) <= 0x01FF,
{
    let n = bytes.len() as int;
    let t = push_all(s, bytes);
    lemma_push_all(s, bytes);
    lemma_pop_n(t, n as nat);
    let out = pop_n(t, n as nat).1;
    lemma_sp_offset_add(s.stack_pointer, -n, n);
    assert(sp_offset(s.stack_pointer, 0) == s.stack_pointer);
    assert forall|j: int| 0 <= j < n implies out[j] == bytes.reverse()[j] by {
        lemma_sp_offset_add(s.stack_pointer, -n, j + 1);
        assert(sp_offset(t.stack_pointer, j + 1) == sp_offset(s.stack_pointer, -(n - 1 - j)));
    }
    assert(out =~= bytes.reverse());
}

} // verus!
