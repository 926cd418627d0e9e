//! Input checks shared by the managers, and helpers that size their collections.
use vstd::prelude::*;
use std::collections::HashMap;
use std::hash::Hash;
use crate::text::{
    trimmed, utf8_len, utf8_width, is_control_char, trim_bounds, char_utf8_width, is_control,
    decimal, signed_decimal, append_decimal, append_signed_decimal,
};
use crate::types::{GameError, GameResult};

verus! {

broadcast use vstd::std_specs::hash::group_hash_axioms;

/// Fails with `InvalidTarget` exactly when `id >= max_entities`.
pub fn validate_id_bounds(id: u32, max_entities: u32) -> (r: GameResult<()>)
    ensures
        r.is_ok() <==> id < max_entities,
        r matches Err(e) ==> e is InvalidTarget,
        r matches Err(GameError::InvalidTarget(m)) ==> m@ == "ID "@ + decimal(id as nat)
            + " exceeds maximum allowed entities ("@ + decimal(max_entities as nat) + ")"@,
{
    if id >= max_entities {
        let mut m = String::from_str("ID ");
        append_decimal(&mut m, id as u64);
        m.append(" exceeds maximum allowed entities (");
        append_decimal(&mut m, max_entities as u64);
        m.append(")");
        assert(m@ =~= "ID "@ + decimal(id as nat) + " exceeds maximum allowed entities ("@
            + decimal(max_entities as nat) + ")"@);
        return Err(GameError::InvalidTarget(m));
    }
    Ok(())
}

/// A character that a name may not hold: a control character other than tab and newline.
pub open spec fn is_forbidden_name_char(c: char) -> bool {
    is_control_char(c) && c != '\t' && c != '\n'
}

/// Whether the trimmed name holds a forbidden character.
pub open spec fn has_forbidden_char(s: Seq<char>) -> bool {
    exists|i: int| 0 <= i < s.len() && is_forbidden_name_char(#[trigger] s[i])
}

/// `context` followed by `suffix`.
pub open spec fn message(context: Seq<char>, suffix: Seq<char>) -> Seq<char> {
    context + suffix
}

proof fn lemma_utf8_len_prefix(s: Seq<char>, k: int)
    requires
        0 <= k < s.len(),
    ensures
        utf8_len(s.subrange(0, k + 1)) == utf8_len(s.subrange(0, k)) + utf8_width(s[k]),
{
    assert(s.subrange(0, k + 1).drop_last() =~= s.subrange(0, k));
}

proof fn lemma_utf8_len_monotone(s: Seq<char>, k: int)
    requires
        0 <= k <= s.len(),
    ensures
        utf8_len(s.subrange(0, k)) <= utf8_len(s),
    decreases s.len() - k,
{
    if k < s.len() {
        lemma_utf8_len_prefix(s, k);
        lemma_utf8_len_monotone(s, k + 1);
    } else {
        assert(s.subrange(0, k) =~= s);
    }
}

/// Checks a name once trimmed: it must be non-empty, at most 100 bytes long, and free of
/// control characters other than tab and newline. The first failing check gives the error.
pub fn validate_name(name: &str, context: &str) -> (r: GameResult<()>)
    ensures
        r.is_ok() <==> (trimmed(name@).len() > 0 && utf8_len(trimmed(name@)) <= 100
            && !has_forbidden_char(trimmed(name@))),
        r matches Err(e) ==> e is InvalidOperation,
        r matches Err(GameError::InvalidOperation(m)) ==> m@ == (if trimmed(name@).len() == 0 {
            message(context@, " name cannot be empty"@)
        } else if utf8_len(trimmed(name@)) > 100 {
            message(context@, " name too long (max 100 characters)"@)
        } else {
            message(context@, " name contains invalid characters"@)
        }),
{
    let (start, end) = trim_bounds(name);
    let ghost t = trimmed(name@);
    if start == end {
        let mut m = String::from_str(context);
        m.append(" name cannot be empty");
        return Err(GameError::InvalidOperation(m));
    }
    let mut bytes: usize = 0;
    let mut i: usize = start;
    let mut too_long = false;
    while i < end
        invariant_except_break
            !too_long,
            bytes == utf8_len(t.subrange(0, i - start)),
            bytes <= 100,
        invariant
            start <= i <= end <= name@.len(),
            t == name@.subrange(start as int, end as int),
        ensures
            too_long ==> utf8_len(t) > 100,
            !too_long ==> i == end && bytes == utf8_len(t.subrange(0, i - start)) && bytes <= 100,
        decreases end - i,
    {
        let w = char_utf8_width(name.get_char(i));
        proof {
            lemma_utf8_len_prefix(t, i - start);
        }
        if bytes + w > 100 {
            proof {
                lemma_utf8_len_monotone(t, i - start + 1);
            }
            too_long = true;
            break;
        }
        bytes = bytes + w;
        i = i + 1;
    }
    if too_long {
        let mut m = String::from_str(context);
        m.append(" name too long (max 100 characters)");
        return Err(GameError::InvalidOperation(m));
    }
    assert(t.subrange(0, t.len() as int) =~= t);
    let mut j: usize = start;
    while j < end
        invariant
            start <= j <= end <= name@.len(),
            t == name@.subrange(start as int, end as int),
            t == trimmed(name@),
            forall|k: int| 0 <= k < j - start ==> !is_forbidden_name_char(#[trigger] t[k]),
            utf8_len(t) <= 100,
            t.len() > 0,
        decreases end - j,
    {
        let c = name.get_char(j);
        if is_control(c) && c != '\t' && c != '\n' {
            assert(is_forbidden_name_char(t[j - start]));
            let mut m = String::from_str(context);
            m.append(" name contains invalid characters");
            return Err(GameError::InvalidOperation(m));
        }
        j = j + 1;
    }
    assert(!has_forbidden_char(t));
    Ok(())
}

/// Fails with `InvalidOperation` exactly when `value` lies outside `[min, max]`.
pub fn validate_numeric_bounds(value: i32, min: i32, max: i32, context: &str) -> (r: GameResult<
    (),
>)
    ensures
        r.is_ok() <==> (min <= value && value <= max),
        r matches Err(e) ==> e is InvalidOperation,
        r matches Err(GameError::InvalidOperation(m)) ==> m@ == context@ + " value "@
            + signed_decimal(value as int) + " out of bounds ("@ + signed_decimal(min as int)
            + " to "@ + signed_decimal(max as int) + ")"@,
{
    if value < min || value > max {
        let mut m = String::from_str(context);
        m.append(" value ");
        append_signed_decimal(&mut m, value as i64);
        m.append(" out of bounds (");
        append_signed_decimal(&mut m, min as i64);
        m.append(" to ");
        append_signed_decimal(&mut m, max as i64);
        m.append(")");
        assert(m@ =~= context@ + " value "@ + signed_decimal(value as int) + " out of bounds ("@
            + signed_decimal(min as int) + " to "@ + signed_decimal(max as int) + ")"@);
        return Err(GameError::InvalidOperation(m));
    }
    Ok(())
}

/// An empty vector with room for 1000 entities.
pub fn create_entity_vec<T>() -> (r: Vec<T>)
    ensures
        r@ == Seq::<T>::empty(),
{
    Vec::with_capacity(1000)
}

/// An empty map with room for 1000 entries.
pub fn create_index_map<K: Hash + Eq, V>() -> (r: HashMap<K, V>)
    ensures
        r@ == Map::<K, V>::empty(),
{
    HashMap::with_capacity(1000)
}

/// Fails with `SystemError` exactly when the collection already holds `max_size` items
/// or more.
pub fn check_collection_size<T>(collection: &Vec<T>, max_size: usize, entity_type: &str) -> (r:
    GameResult<()>)
    ensures
        r.is_ok() <==> collection@.len() < max_size,
        r matches Err(GameError::SystemError(m)) ==> m@ == entity_type@
            + " collection at maximum capacity ("@ + decimal(max_size as nat) + ")"@,
        r matches Err(e) ==> e is SystemError,
{
    if collection.len() >= max_size {
        let mut m = String::from_str(entity_type);
        m.append(" collection at maximum capacity (");
        append_decimal(&mut m, max_size as u64);
        m.append(")");
        assert(m@ =~= entity_type@ + " collection at maximum capacity ("@ + decimal(
            max_size as nat,
        ) + ")"@);
        return Err(GameError::SystemError(m));
    }
    Ok(())
}

} // verus!
