//! Reading the statistics files of a control group.
//!
//! The kernel writes `cpu.stat` as lines of a key and a value, `io.stat` as
//! one line for each block device with fields of the form `key=value`, and
//! the memory files as one decimal number. A number that cannot be read
//! counts as zero, so that a snapshot stays useful where a controller is absent.

use vstd::prelude::*;
use crate::resources::{saturated, CpuTime};
use crate::text::{
    chars_of, find_char, first_index, lines, parse_u64, parsed_u64, same_text, split_lines,
    split_tokens, subvec, texts, tokens, trim, trimmed,
};

verus! {

/// The number that `s` writes, or zero where it writes none.
pub open spec fn number_or_zero(s: Seq<char>) -> u64 {
    match parsed_u64(s) {
        Some(n) => n,
        None => 0,
    }
}

/// The value that a file of keys and values gives for `key`: that of the
/// last line made of exactly the key and one more token, read as a number;
/// zero where no line is of that form.
pub open spec fn keyed_value(ls: Seq<Seq<char>>, key: Seq<char>) -> u64
    decreases ls.len(),
{
    if ls.len() == 0 {
        0
    } else {
        let t = tokens(ls.last());
        if t.len() == 2 && t[0] == key {
            number_or_zero(t[1])
        } else {
            keyed_value(ls.drop_last(), key)
        }
    }
}

/// What one field of a device line adds to the total for `key`: the number
/// behind the first `=` where the text before it is the key, else nothing.
pub open spec fn field_value(field: Seq<char>, key: Seq<char>) -> nat {
    let n = first_index(field, '=');
    if 0 <= n < field.len() && field.take(n) == key {
        number_or_zero(field.skip(n + 1)) as nat
    } else {
        0
    }
}

/// The total for `key` over some fields.
pub open spec fn fields_total(fields: Seq<Seq<char>>, key: Seq<char>) -> nat
    decreases fields.len(),
{
    if fields.len() == 0 {
        0
    } else {
        fields_total(fields.drop_last(), key) + field_value(fields.last(), key)
    }
}

/// The total for `key` on one device line: that of the fields behind the
/// device's name.
pub open spec fn device_total(line: Seq<char>, key: Seq<char>) -> nat {
    let t = tokens(line);
    if t.len() < 2 {
        0
    } else {
        fields_total(t.skip(1), key)
    }
}

/// The total for `key` over all device lines.
pub open spec fn devices_total(ls: Seq<Seq<char>>, key: Seq<char>) -> nat
    decreases ls.len(),
{
    if ls.len() == 0 {
        0
    } else {
        devices_total(ls.drop_last(), key) + device_total(ls.last(), key)
    }
}

/// The processor times that the text of `cpu.stat` reports: usage and
/// throttled time, in microseconds.
pub open spec fn cpu_times(content: Seq<char>) -> (CpuTime, CpuTime) {
    (
        CpuTime(keyed_value(lines(content), "usage_usec"@)),
        CpuTime(keyed_value(lines(content), "throttled_usec"@)),
    )
}

/// The bytes read and written that the text of `io.stat` reports, summed
/// over the devices as far as 64 bits hold the sums.
pub open spec fn io_totals(content: Seq<char>) -> (u64, u64) {
    (
        saturated(devices_total(lines(content), "rbytes"@) as int),
        saturated(devices_total(lines(content), "wbytes"@) as int),
    )
}

/// The number that a file with a single value holds.
pub open spec fn single_value(content: Seq<char>) -> u64 {
    number_or_zero(trimmed(content))
}

/// Reads a number, zero where there is none.
fn read_number(v: &Vec<char>) -> (n: u64)
    ensures
        n == number_or_zero(v@),
{
    match parse_u64(v) {
        Some(n) => n,
        None => 0,
    }
}

/// Looks up `key` in the lines of a file of keys and values.
fn lookup(ls: &Vec<Vec<char>>, key: &Vec<char>) -> (n: u64)
    ensures
        n == keyed_value(texts(ls@), key@),
{
    let mut n: u64 = 0;
    let mut i: usize = 0;
    assert(texts(ls@).take(0) =~= Seq::<Seq<char>>::empty());
    while i < ls.len()
        invariant
            i <= ls.len(),
            n == keyed_value(texts(ls@).take(i as int), key@),
        decreases ls.len() - i,
    {
        let t = split_tokens(&ls[i]);
        proof {
            let next = texts(ls@).take(i + 1);
            assert(next.drop_last() =~= texts(ls@).take(i as int));
            assert(next.last() == ls@[i as int]@);
        }
        if t.len() == 2 && same_text(&t[0], key) {
            assert(texts(t@)[0] == t@[0]@);
            assert(texts(t@)[1] == t@[1]@);
            n = read_number(&t[1]);
        } else {
            assert(texts(t@).len() == t@.len());
            if t.len() == 2 {
                assert(texts(t@)[0] == t@[0]@);
            }
        }
        i = i + 1;
    }
    assert(texts(ls@).take(ls.len() as int) =~= texts(ls@));
    n
}

/// Reads the processor times from the text of `cpu.stat`.
pub fn parse_cpu_stat(content: &str) -> (r: (CpuTime, CpuTime))
    ensures
        r == cpu_times(content@),
{
    let chars = chars_of(content);
    let ls = split_lines(&chars);
    let usage_key = chars_of("usage_usec");
    let throttled_key = chars_of("throttled_usec");
    let usage = lookup(&ls, &usage_key);
    let throttled = lookup(&ls, &throttled_key);
    (CpuTime(usage), CpuTime(throttled))
}

/// What one field adds to the total for `key`.
fn read_field(field: &Vec<char>, key: &Vec<char>) -> (n: u64)
    ensures
        n == field_value(field@, key@),
{
    let at = find_char(field, 0, '=');
    assert(field@.skip(0) =~= field@);
    if at < field.len() {
        let name = subvec(field, 0, at);
        assert(field@.subrange(0, at as int) =~= field@.take(at as int));
        if same_text(&name, key) {
            let value = subvec(field, at + 1, field.len());
            assert(field@.subrange(at + 1, field.len() as int) =~= field@.skip(at + 1));
            read_number(&value)
        } else {
            0
        }
    } else {
        0
    }
}

/// Adds to `total`, stopping at the greatest 64-bit number.
fn add_up(total: u64, n: u64) -> (r: u64)
    ensures
        r == saturated(total + n),
{
    total.saturating_add(n)
}

/// The total for `key` over the device lines, as far as 64 bits hold it.
fn sum_devices(ls: &Vec<Vec<char>>, key: &Vec<char>) -> (n: u64)
    ensures
        n == saturated(devices_total(texts(ls@), key@) as int),
{
    let mut n: u64 = 0;
    let mut i: usize = 0;
    assert(texts(ls@).take(0) =~= Seq::<Seq<char>>::empty());
    while i < ls.len()
        invariant
            i <= ls.len(),
            n == saturated(devices_total(texts(ls@).take(i as int), key@) as int),
        decreases ls.len() - i,
    {
        let t = split_tokens(&ls[i]);
        let ghost before = devices_total(texts(ls@).take(i as int), key@);
        proof {
            let next = texts(ls@).take(i + 1);
            assert(next.drop_last() =~= texts(ls@).take(i as int));
            assert(next.last() == ls@[i as int]@);
            assert(texts(t@).len() == t@.len());
        }
        if t.len() >= 2 {
            let ghost fields = texts(t@).skip(1);
            let mut k: usize = 1;
            assert(fields.take(0) =~= Seq::<Seq<char>>::empty());
            while k < t.len()
                invariant
                    1 <= k <= t.len(),
                    fields == texts(t@).skip(1),
                    n == saturated((before + fields_total(fields.take(k - 1), key@)) as int),
                decreases t.len() - k,
            {
                let v = read_field(&t[k], key);
                proof {
                    let next = fields.take(k as int);
                    assert(next.drop_last() =~= fields.take(k - 1));
                    assert(next.last() == t@[k as int]@);
                }
                n = add_up(n, v);
                k = k + 1;
            }
            assert(fields.take(t.len() - 1) =~= fields);
        }
        i = i + 1;
    }
    assert(texts(ls@).take(ls.len() as int) =~= texts(ls@));
    n
}

/// Reads the bytes read and written from the text of `io.stat`.
pub fn parse_io_stat(content: &str) -> (r: (u64, u64))
    ensures
        r == io_totals(content@),
{
    let chars = chars_of(content);
    let ls = split_lines(&chars);
    let read_key = chars_of("rbytes");
    let write_key = chars_of("wbytes");
    let read = sum_devices(&ls, &read_key);
    let written = sum_devices(&ls, &write_key);
    (read, written)
}

/// Reads the number that a file with a single value holds.
pub fn parse_single_value(content: &str) -> (n: u64)
    ensures
        n == single_value(content@),
{
    let chars = chars_of(content);
    let t = trim(&chars);
    read_number(&t)
}

/// The process numbers that a text lists, one to a line; lines that hold no
/// process number are passed over.
pub open spec fn listed_pids(ls: Seq<Seq<char>>) -> Seq<i32>
    decreases ls.len(),
{
    if ls.len() == 0 {
        Seq::empty()
    } else {
        match crate::text::parsed_i32(trimmed(ls.last())) {
            Some(pid) => listed_pids(ls.drop_last()).push(pid),
            None => listed_pids(ls.drop_last()),
        }
    }
}

/// Reads the process numbers from the text of `cgroup.procs`.
pub fn parse_pid_list(content: &str) -> (pids: Vec<i32>)
    ensures
        pids@ == listed_pids(lines(content@)),
{
    let chars = chars_of(content);
    let ls = split_lines(&chars);
    let mut pids: Vec<i32> = Vec::new();
    let mut i: usize = 0;
    assert(texts(ls@).take(0) =~= Seq::<Seq<char>>::empty());
    while i < ls.len()
        invariant
            i <= ls.len(),
            pids@ == listed_pids(texts(ls@).take(i as int)),
        decreases ls.len() - i,
    {
        let t = trim(&ls[i]);
        proof {
            let next = texts(ls@).take(i + 1);
            assert(next.drop_last() =~= texts(ls@).take(i as int));
            assert(next.last() == ls@[i as int]@);
        }
        match crate::text::parse_i32(&t) {
            Some(pid) => {
                pids.push(pid);
            },
            None => {},
        }
        i = i + 1;
    }
    assert(texts(ls@).take(ls.len() as int) =~= texts(ls@));
    pids
}

/// A key that stands on no line gives zero.
pub proof fn lemma_keyed_value_absent(ls: Seq<Seq<char>>, key: Seq<char>)
    requires
        forall|i: int| 0 <= i < ls.len() ==> !(tokens(#[trigger] ls[i]).len() == 2 && tokens(
            ls[i],
        )[0] == key),
    ensures
        keyed_value(ls, key) == 0,
    decreases ls.len(),
{
    if ls.len() > 0 {
        assert(ls.last() == ls[ls.len() - 1]);
        let rest = ls.drop_last();
        assert forall|i: int| 0 <= i < rest.len() implies !(tokens(#[trigger] rest[i]).len() == 2
            && tokens(rest[i])[0] == key) by {
            assert(rest[i] == ls[i]);
        }
        lemma_keyed_value_absent(rest, key);
    }
}

/// One more device line adds its own total, and never lowers the sum.
pub proof fn lemma_devices_total_grows(ls: Seq<Seq<char>>, line: Seq<char>, key: Seq<char>)
    ensures
        devices_total(ls.push(line), key) == devices_total(ls, key) + device_total(line, key),
        devices_total(ls.push(line), key) >= devices_total(ls, key),
{
    assert(ls.push(line).drop_last() =~= ls);
    assert(ls.push(line).last() == line);
}

} // verus!
