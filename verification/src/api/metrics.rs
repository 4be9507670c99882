//! The groups under which the request metrics of parametrised routes are
//! counted: each route pattern is counted under its own path with the
//! `:` of its parameters dropped.

use vstd::prelude::*;

verus! {

/// The route patterns whose requests are grouped, in the order in which
/// the groups are registered.
pub open spec fn metric_route_patterns() -> Seq<Seq<char>> {
    seq![
        "/v2/pools/address/:address"@,
        "/v1/pairs/address/:address"@,
        "/v1/pairs/left/:left_address/right/:right_address"@,
        "/v1/pairs/left/:left_address/right/:right_address/ohlcv"@,
        "/v1/pairs/address/:address/ohlcv"@,
        "/v1/pairs/address/:address/volume"@,
        "/v1/pairs/address/:address/tvl"@,
        "/v1/pairs/address/:address/fee"@,
        "/v1/pairs/pool/:pool_address/ts/:timestamp"@,
        "/v1/currencies/:currency_address"@,
        "/v1/currencies/:currency_address/prices"@,
        "/v1/currencies/:currency_address/volume"@,
        "/v1/currencies/:currency_address/tvl"@,
        "/v1/currencies/:currency_address/fee"@,
    ]
}

/// `path` with every `:` dropped.
pub open spec fn strip_params(path: Seq<char>) -> Seq<char>
    decreases path.len(),
{
    if path.len() == 0 {
        path
    } else {
        let rest = strip_params(path.drop_last());
        if path.last() == ':' {
            rest
        } else {
            rest.push(path.last())
        }
    }
}

/// A stripped path holds no `:`, and keeps every other character.
pub proof fn lemma_strip_params(path: Seq<char>)
    ensures
        !strip_params(path).contains(':'),
        strip_params(path).len() <= path.len(),
        strip_params(path) == path <==> !path.contains(':'),
    decreases path.len(),
{
    if path.len() > 0 {
        let init = path.drop_last();
        lemma_strip_params(init);
        let rest = strip_params(init);
        if path.last() == ':' {
            assert(path.contains(':')) by {
                assert(path[path.len() - 1] == ':');
            }
            assert(strip_params(path) != path);
        } else {
            assert forall|i: int| 0 <= i < rest.push(path.last()).len() implies rest.push(
                path.last(),
            )[i] != ':' by {
                if i < rest.len() {
                    assert(rest[i] != ':') by {
                        if rest[i] == ':' {
                            assert(rest.contains(':'));
                        }
                    }
                }
            }
            if !path.contains(':') {
                assert(!init.contains(':')) by {
                    if init.contains(':') {
                        let j = choose|j: int| 0 <= j < init.len() && init[j] == ':';
                        assert(path[j] == ':');
                    }
                }
                assert(path =~= init.push(path.last()));
            } else {
                let j = choose|j: int| 0 <= j < path.len() && path[j] == ':';
                assert(init[j] == ':');
                assert(init.contains(':'));
                assert(strip_params(path).len() <= init.len() + 1);
                if strip_params(path) == path {
                    assert(rest.len() == init.len());
                    assert(rest =~= init) by {
                        assert(rest == strip_params(path).drop_last());
                    }
                }
            }
        }
    }
}

/// Stripping keeps every character other than `:`, unchanged and in order,
/// and drops every `:`: it is the path filtered by `c != ':'`.
pub proof fn lemma_strip_params_is_filter(path: Seq<char>)
    ensures
        strip_params(path) == path.filter(|c: char| c != ':'),
    decreases path.len(),
{
    reveal(Seq::filter);
    if path.len() > 0 {
        lemma_strip_params_is_filter(path.drop_last());
    }
}

/// No metric group holds a `:`: each is its route's path with the markers
/// of the parameters dropped.
pub proof fn lemma_metric_groups_hold_no_parameters()
    ensures
        forall|i: int|
            0 <= i < metric_route_patterns().len() ==> !(#[trigger] strip_params(
                metric_route_patterns()[i],
            )).contains(':'),
{
    assert forall|i: int| 0 <= i < metric_route_patterns().len() implies !(#[trigger] strip_params(
        metric_route_patterns()[i],
    )).contains(':') by {
        lemma_strip_params(metric_route_patterns()[i]);
    }
}

/// The metric group of a route pattern: the pattern with every `:` dropped.
pub fn strip_path_params(path: &str) -> (r: String)
    ensures
        r@ == strip_params(path@),
{
    let len = path.unicode_len();
    let mut r = String::new();
    let mut i: usize = 0;
    while i < len
        invariant
            i <= len,
            len == path@.len(),
            r@ == strip_params(path@.take(i as int)),
        decreases len - i,
    {
        assert(path@.take(i + 1).drop_last() =~= path@.take(i as int));
        let c = path.get_char(i);
        if c != ':' {
            r.append(path.substring_char(i, i + 1));
        }
        assert(r@ =~= strip_params(path@.take(i + 1)));
        i += 1;
    }
    assert(path@.take(len as int) =~= path@);
    r
}

/// The route patterns whose requests are grouped.
pub fn metric_route_pattern_list() -> (r: Vec<String>)
    ensures
        r@.len() == metric_route_patterns().len(),
        forall|i: int| 0 <= i < r@.len() ==> #[trigger] r@[i]@ == metric_route_patterns()[i],
{
    let mut r: Vec<String> = Vec::new();
    r.push(String::from_str("/v2/pools/address/:address"));
    r.push(String::from_str("/v1/pairs/address/:address"));
    r.push(String::from_str("/v1/pairs/left/:left_address/right/:right_address"));
    r.push(String::from_str("/v1/pairs/left/:left_address/right/:right_address/ohlcv"));
    r.push(String::from_str("/v1/pairs/address/:address/ohlcv"));
    r.push(String::from_str("/v1/pairs/address/:address/volume"));
    r.push(String::from_str("/v1/pairs/address/:address/tvl"));
    r.push(String::from_str("/v1/pairs/address/:address/fee"));
    r.push(String::from_str("/v1/pairs/pool/:pool_address/ts/:timestamp"));
    r.push(String::from_str("/v1/currencies/:currency_address"));
    r.push(String::from_str("/v1/currencies/:currency_address/prices"));
    r.push(String::from_str("/v1/currencies/:currency_address/volume"));
    r.push(String::from_str("/v1/currencies/:currency_address/tvl"));
    r.push(String::from_str("/v1/currencies/:currency_address/fee"));
    r
}

/// The metric groups, each as the group's name and the one route pattern
/// whose requests it counts, in the order in which they are registered.
pub fn metric_group_patterns() -> (r: Vec<(String, String)>)
    ensures
        r@.len() == metric_route_patterns().len(),
        forall|i: int|
            0 <= i < r@.len() ==> {
                &&& (#[trigger] r@[i]).1@ == metric_route_patterns()[i]
                &&& r@[i].0@ == strip_params(metric_route_patterns()[i])
            },
{
    let patterns = metric_route_pattern_list();
    let mut r: Vec<(String, String)> = Vec::new();
    let mut i: usize = 0;
    while i < patterns.len()
        invariant
            i <= patterns@.len(),
            patterns@.len() == metric_route_patterns().len(),
            forall|j: int| 0 <= j < patterns@.len() ==> #[trigger] patterns@[j]@ == metric_route_patterns()[j],
            r@.len() == i,
            forall|j: int|
                0 <= j < i ==> {
                    &&& (#[trigger] r@[j]).1@ == metric_route_patterns()[j]
                    &&& r@[j].0@ == strip_params(metric_route_patterns()[j])
                },
        decreases patterns@.len() - i,
    {
        let pattern = &patterns[i];
        let group = strip_path_params(pattern.as_str());
        r.push((group, pattern.clone()));
        i += 1;
    }
    r
}

} // verus!
