//! The query string of an end-point: the options of its whitelist that the
//! registry holds, as `name=value` pairs joined by `&`, in whitelist order.

use std::collections::HashMap;
use vstd::prelude::*;
use vstd::string::StringExecFns;

use crate::options::{option_code, wire_name, API_Option};

verus! {

broadcast use vstd::std_specs::hash::group_hash_axioms;

/// The `name=value` pair that carries an option.
pub open spec fn pair_text(o: API_Option, value: Seq<char>) -> Seq<char> {
    wire_name(o) + "="@ + value
}

/// The pairs for the options of `whitelist` that `registry` holds, in
/// whitelist order.
pub open spec fn pairs_of(
    registry: Map<u64, Seq<char>>,
    whitelist: Seq<API_Option>,
) -> Seq<Seq<char>>
    decreases whitelist.len(),
{
    if whitelist.len() == 0 {
        seq![]
    } else {
        let prev = pairs_of(registry, whitelist.drop_last());
        let o = whitelist.last();
        if registry.contains_key(option_code(o)) {
            prev.push(pair_text(o, registry[option_code(o)]))
        } else {
            prev
        }
    }
}

/// Texts joined by `&`.
pub open spec fn joined(parts: Seq<Seq<char>>) -> Seq<char>
    decreases parts.len(),
{
    if parts.len() == 0 {
        seq![]
    } else if parts.len() == 1 {
        parts[0]
    } else {
        joined(parts.drop_last()) + "&"@ + parts.last()
    }
}

/// The query string that an end-point with this whitelist sends.
pub open spec fn query_of(registry: Map<u64, Seq<char>>, whitelist: Seq<API_Option>) -> Seq<char> {
    joined(pairs_of(registry, whitelist))
}

/// What a registry holds, as text.
pub open spec fn texts_of(registry: Map<u64, String>) -> Map<u64, Seq<char>> {
    registry.map_values(|v: String| v@)
}

/// Builds the query string for `whitelist` from the options that `registry`
/// holds: one pair for each whitelisted option that is set, in whitelist
/// order, and nothing for the others.
pub fn build_query(registry: &HashMap<u64, String>, whitelist: &[API_Option]) -> (r: String)
    ensures
        r@ == query_of(texts_of(registry@), whitelist@),
{
    let mut out = String::new();
    let mut any = false;
    let mut i: usize = 0;
    while i < whitelist.len()
        invariant
            i <= whitelist@.len(),
            out@ == joined(pairs_of(texts_of(registry@), whitelist@.subrange(0, i as int))),
            any == (pairs_of(texts_of(registry@), whitelist@.subrange(0, i as int)).len() > 0),
        decreases whitelist@.len() - i,
    {
        let o = whitelist[i];
        let ghost before = whitelist@.subrange(0, i as int);
        let ghost after = whitelist@.subrange(0, i + 1);
        assert(after.drop_last() == before);
        assert(after.last() == o);
        match registry.get(&o.code()) {
            Some(v) => {
                let ghost prev = pairs_of(texts_of(registry@), before);
                if any {
                    out.append("&");
                }
                out.append(o.wire_name());
                out.append("=");
                out.append(v.as_str());
                any = true;
                proof {
                    assert(texts_of(registry@)[option_code(o)] == v@);
                    let ps = pairs_of(texts_of(registry@), after);
                    assert(ps == prev.push(pair_text(o, v@)));
                    assert(ps.drop_last() == prev);
                    if prev.len() == 0 {
                        assert(joined(ps) == ps[0]);
                    }
                    assert(wire_name(o) + "="@ + v@ == pair_text(o, v@));
                }
            },
            None => {},
        }
        i = i + 1;
    }
    assert(whitelist@.subrange(0, whitelist@.len() as int) == whitelist@);
    out
}

} // verus!
