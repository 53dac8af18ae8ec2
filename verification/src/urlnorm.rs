//! URL normalization: maps a repository URL to the deterministic relative
//! path (domain followed by the path segments, trailing extension stripped)
//! that keys the shared bare-repository cache.

use vstd::prelude::*;
use vstd::string::*;

use crate::strutil::{find_last_index, last_index_of, string_take};

verus! {

/// Why a URL yields no cache path.
#[derive(Debug, Clone, PartialEq, Eq)]
pub enum UrlError {
    Unparsable,
    MissingDomain,
}

/// Whether `url::Url::parse` accepts the string.
pub uninterp spec fn url_parse_ok(s: Seq<char>) -> bool;

/// The domain component of the parsed URL, `None` when it has no domain.
pub uninterp spec fn url_domain_of(s: Seq<char>) -> Option<Seq<char>>;

/// The path segments of the parsed URL, in order.
pub uninterp spec fn url_segments_of(s: Seq<char>) -> Seq<Seq<char>>;

/// Relies on url::Url::parse, Url::domain and Url::path_segments: parses the
/// URL and hands back its domain and path segments. All three depend on the
/// URL string alone; a URL without path segments yields an empty list.
#[verifier::external_body]
fn parse_url_parts(url: &String) -> (r: Result<(String, Vec<String>), UrlError>)
    ensures
        match r {
            Ok(p) => url_parse_ok(url@) && url_domain_of(url@) is Some && p.0@ == url_domain_of(
                url@,
            )->Some_0 && p.1.deep_view() == url_segments_of(url@),
            Err(e) => !(url_parse_ok(url@) && url_domain_of(url@) is Some) && (e is Unparsable
                <==> !url_parse_ok(url@)),
        },
{
    match url::Url::parse(url) {
        Ok(u) => match u.domain() {
            Some(d) => {
                let domain = d.to_string();
                let segs = u.path_segments().into_iter().flatten().map(|s| s.to_string()).collect();
                Ok((domain, segs))
            },
            None => Err(UrlError::MissingDomain),
        },
        Err(_) => Err(UrlError::Unparsable),
    }
}

/// A file name with its extension removed: everything from the last `.` on is
/// dropped, unless that `.` is the first character (a leading dot marks a
/// hidden name, not an extension).
pub open spec fn strip_extension(s: Seq<char>) -> Seq<char> {
    match last_index_of(s, '.') {
        Some(i) => if i > 0 {
            s.take(i)
        } else {
            s
        },
        None => s,
    }
}

/// The segments that contribute a path component: the empty ones (from
/// doubled or trailing slashes) are skipped.
pub open spec fn nonempty_segments(segs: Seq<Seq<char>>) -> Seq<Seq<char>> {
    segs.filter(|seg: Seq<char>| seg.len() > 0)
}

/// Components joined with `/`.
pub open spec fn join_slash(parts: Seq<Seq<char>>) -> Seq<char>
    decreases parts.len(),
{
    if parts.len() == 0 {
        Seq::empty()
    } else if parts.len() == 1 {
        parts[0]
    } else {
        join_slash(parts.drop_last()) + "/"@ + parts.last()
    }
}

/// The cache-relative path for a domain and its path segments: the domain,
/// then each nonempty segment, joined with `/`, with the extension of the
/// final component stripped.
pub open spec fn normalize_parts(domain: Seq<char>, segs: Seq<Seq<char>>) -> Seq<char> {
    let parts = seq![domain] + nonempty_segments(segs);
    join_slash(parts.update(parts.len() - 1, strip_extension(parts.last())))
}

/// The cache-relative path for a URL.
pub open spec fn normalized_of(url: Seq<char>) -> Seq<char> {
    normalize_parts(url_domain_of(url)->Some_0, url_segments_of(url))
}

/// `s` with the extension of its final component removed, exactly as
/// `strip_extension` describes.
fn strip_extension_exec(s: &String) -> (r: String)
    ensures
        r@ == strip_extension(s@),
{
    match find_last_index(s, '.') {
        Some(i) => {
            if i > 0 {
                string_take(s, i)
            } else {
                s.clone()
            }
        },
        None => s.clone(),
    }
}

/// The deterministic cache path for a repository URL: the domain followed by
/// each path segment, the trailing extension stripped, so that a URL with and
/// without a `.git` suffix share one cache entry. Fails exactly when the URL
/// does not parse or has no domain.
pub fn normalize_url_for_dir(url: &String) -> (r: Result<String, UrlError>)
    ensures
        r is Ok <==> url_parse_ok(url@) && url_domain_of(url@) is Some,
        r matches Ok(p) ==> p@ == normalized_of(url@),
        r matches Err(e) ==> (e is Unparsable <==> !url_parse_ok(url@)),
{
    let (domain, segs) = match parse_url_parts(url) {
        Ok(p) => p,
        Err(e) => {
            return Err(e);
        },
    };

    let ghost gsegs: Seq<Seq<char>> = segs.deep_view();
    let mut parts: Vec<String> = Vec::new();
    parts.push(domain);
    let mut k: usize = 0;
    proof {
        assert(gsegs.take(0) =~= Seq::<Seq<char>>::empty());
        reveal_with_fuel(Seq::<Seq<char>>::filter, 2);
        assert(parts.deep_view() =~= seq![url_domain_of(url@)->Some_0] + nonempty_segments(
            gsegs.take(0),
        ));
    }
    while k < segs.len()
        invariant
            k <= segs.len(),
            gsegs == segs.deep_view(),
            gsegs.len() == segs.len(),
            parts.deep_view() =~= seq![url_domain_of(url@)->Some_0] + nonempty_segments(
                gsegs.take(k as int),
            ),
            parts.len() >= 1,
        decreases segs.len() - k,
    {
        let ghost old_parts = parts.deep_view();
        let seg = &segs[k];
        proof {
            reveal_with_fuel(Seq::<Seq<char>>::filter, 2);
            assert(gsegs.take(k + 1).drop_last() =~= gsegs.take(k as int));
            assert(gsegs.take(k + 1).last() == gsegs[k as int]);
            assert(gsegs[k as int] == seg.deep_view());
        }
        if seg.as_str().unicode_len() > 0 {
            parts.push(seg.clone());
            proof {
                assert(parts.deep_view() =~= old_parts.push(seg@));
            }
        }
        proof {
            reveal_with_fuel(Seq::<Seq<char>>::filter, 2);
            assert(parts.deep_view() =~= seq![url_domain_of(url@)->Some_0] + nonempty_segments(
                gsegs.take(k + 1),
            ));
        }
        k = k + 1;
    }
    proof {
        assert(gsegs.take(segs.len() as int) =~= gsegs);
    }

    // Strip the extension of the final component.
    let last_index = parts.len() - 1;
    let stripped = strip_extension_exec(&parts[last_index]);
    parts.set(last_index, stripped);
    proof {
        assert(parts.deep_view() =~= (seq![url_domain_of(url@)->Some_0] + nonempty_segments(
            gsegs,
        )).update(
            (seq![url_domain_of(url@)->Some_0] + nonempty_segments(gsegs)).len() - 1,
            strip_extension(
                (seq![url_domain_of(url@)->Some_0] + nonempty_segments(gsegs)).last(),
            ),
        ));
    }

    // Join the components with '/'.
    let ghost final_parts = parts.deep_view();
    let mut out: String = parts[0].clone();
    let mut j: usize = 1;
    while j < parts.len()
        invariant
            1 <= j <= parts.len(),
            parts.len() >= 1,
            final_parts == parts.deep_view(),
            final_parts.len() == parts.len(),
            out@ == join_slash(final_parts.take(j as int)),
        decreases parts.len() - j,
    {
        proof {
            assert(final_parts.take(j + 1).drop_last() =~= final_parts.take(j as int));
            assert(final_parts.take(j + 1).last() == final_parts[j as int]);
        }
        out.append("/");
        out.append(parts[j].as_str());
        j = j + 1;
    }
    proof {
        assert(final_parts.take(parts.len() as int) =~= final_parts);
    }
    Ok(out)
}

/// Normalization is deterministic: any two results for the same URL are the
/// same path, because the path is a function of the URL string alone.
pub proof fn lemma_normalize_deterministic(url: Seq<char>, p1: Seq<char>, p2: Seq<char>)
    requires
        p1 == normalized_of(url),
        p2 == normalized_of(url),
    ensures
        p1 == p2,
{
}

} // verus!
