use vstd::prelude::*;

verus! {

/// Loads `.svg` files as vector image assets.
pub struct SvgAssetLoader;

/// A path with each backslash separator turned into a forward slash.
pub open spec fn forward_slashes(path: Seq<char>) -> Seq<char> {
    path.map_values(|c: char| if c == '\\' { '/' } else { c })
}

/// Relies on `String::push`: appends one character.
#[verifier::external_body]
fn push_char(s: &mut String, c: char)
    ensures
        final(s)@ == old(s)@.push(c),
{
    s.push(c)
}

impl SvgAssetLoader {
    /// The file extensions this loader accepts.
    pub fn extensions(&self) -> (r: Vec<&'static str>)
        ensures
            r@.len() == 1,
            r@[0]@ == "svg"@,
    {
        let mut r: Vec<&'static str> = Vec::new();
        r.push("svg");
        r
    }

    /// Where the source of an asset lies: under `assets/`, with the asset
    /// path's separators written as forward slashes.
    pub fn asset_source_path(&self, path: &str) -> (r: String)
        ensures
            r@ == "assets/"@ + forward_slashes(path@),
    {
        let mut out = "assets/".to_owned();
        let ghost prefix = out@;
        for c in it: path.chars()
            invariant
                prefix == "assets/"@,
                it.seq() == path@,
                out@ == prefix + forward_slashes(path@.take(it.index() as int)),
        {
            let ghost k = it.index();
            if c == '\\' {
                push_char(&mut out, '/');
            } else {
                push_char(&mut out, c);
            }
            assert(path@.take(k + 1) == path@.take(k as int).push(c));
            assert(forward_slashes(path@.take(k + 1)) =~= forward_slashes(path@.take(k as int)).push(
                if c == '\\' { '/' } else { c },
            ));
        }
        assert(path@.take(path@.len() as int) == path@);
        out
    }
}

} // verus!
