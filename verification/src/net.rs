//! The pure computations behind the network gateway: the health-check
//! endpoint of a configured server, the target of a proxied request, and
//! the filtering of reachable servers. The gateway itself — sockets,
//! requests, streaming — lives outside the library and hands these
//! functions plain values.

use vstd::prelude::*;
use vstd::string::StringExecFns;

verus! {

/// The model-listing endpoint probed to decide whether a server is up.
pub fn models_endpoint(url: &String) -> (r: String)
    ensures
        r@ == url@ + "/v1/models"@,
{
    url.clone().concat("/v1/models")
}

/// The upstream target of a proxied request: the configured base address —
/// or the local default when none is configured — followed by the request
/// path and its query.
pub fn proxy_target(base: &Option<String>, path: &String, query: &String) -> (r: String)
    ensures
        r@ == ({
            let b = match base {
                Some(u) => u@,
                None => "http://127.0.0.1:11434"@,
            };
            b + path@ + "?"@ + query@
        }),
{
    let b = match base {
        Some(u) => u.clone(),
        None => String::from_str("http://127.0.0.1:11434"),
    };
    let r = b.concat(path.as_str()).concat("?").concat(query.as_str());
    proof {
        assert(r@ =~= ({
            let b = match base {
                Some(u) => u@,
                None => "http://127.0.0.1:11434"@,
            };
            b + path@ + "?"@ + query@
        }));
    }
    r
}

/// The servers whose probe succeeded, in the order they were given.
pub open spec fn reachable_of(urls: Seq<Seq<char>>, ok: Seq<bool>) -> Seq<Seq<char>>
    decreases urls.len(),
{
    if urls.len() == 0 {
        Seq::empty()
    } else {
        let rest = reachable_of(urls.drop_last(), ok.drop_last());
        if ok.last() {
            rest.push(urls.last())
        } else {
            rest
        }
    }
}

/// Keeps the servers whose probe outcome was success, order preserved.
pub fn filter_reachable(urls: &Vec<String>, ok: &Vec<bool>) -> (r: Vec<String>)
    requires
        urls@.len() == ok@.len(),
    ensures
        r.deep_view() == reachable_of(urls.deep_view(), ok@),
{
    let mut r: Vec<String> = Vec::new();
    let mut i: usize = 0;
    proof {
        assert(r.deep_view() =~~= reachable_of(
            urls.deep_view().subrange(0, 0),
            ok@.subrange(0, 0),
        ));
    }
    while i < urls.len()
        invariant
            i <= urls@.len(),
            urls@.len() == ok@.len(),
            r.deep_view() == reachable_of(
                urls.deep_view().subrange(0, i as int),
                ok@.subrange(0, i as int),
            ),
        decreases urls@.len() - i,
    {
        proof {
            assert(urls.deep_view().subrange(0, i + 1 as int).drop_last() =~~= urls.deep_view()
                .subrange(0, i as int));
            assert(ok@.subrange(0, i + 1 as int).drop_last() =~= ok@.subrange(0, i as int));
            assert(urls.deep_view().subrange(0, i + 1 as int).last() == urls.deep_view()[i as int]);
        }
        if ok[i] {
            r.push(urls[i].clone());
            proof {
                assert(r.deep_view() =~~= reachable_of(
                    urls.deep_view().subrange(0, i + 1 as int),
                    ok@.subrange(0, i + 1 as int),
                ));
            }
        } else {
            proof {
                assert(r.deep_view() =~~= reachable_of(
                    urls.deep_view().subrange(0, i + 1 as int),
                    ok@.subrange(0, i + 1 as int),
                ));
            }
        }
        i = i + 1;
    }
    proof {
        assert(urls.deep_view().subrange(0, urls@.len() as int) =~~= urls.deep_view());
        assert(ok@.subrange(0, ok@.len() as int) =~= ok@);
    }
    r
}

} // verus!
