//! Asset URL generation and recognition: a pure, stateless mapping from
//! (entity id, form path, asset kind) to a fully qualified URL, and its
//! inverse, matching a request path against the fixed set of path
//! templates.

use crate::datamodel::str_eq;
use crate::strutil::{pad4, parse_i32, spec_pad4, spec_parse_i32, spec_split, split_chars};
use vstd::string::{StrSliceExecFns, StringExecFns};
use vstd::prelude::*;

verus! {

/// The kinds of assets served for an entity's form. The payload of the
/// parameterized kinds names the emotion or action the asset shows.
#[derive(Clone, Debug)]
pub enum AssetType<'a> {
    PortraitSheet,
    PortraitRecolorSheet,
    Portrait(&'a str),
    PortraitFlipped(&'a str),
    SpriteAnimDataXml,
    SpriteZip,
    SpriteRecolorSheet,
    SpriteAnim(&'a str),
    SpriteOffsets(&'a str),
    SpriteShadows(&'a str),
}

/// What the uppercase mapping of a character is: the sequence of
/// characters that standard uppercasing yields for it; it depends on
/// the character alone.
pub uninterp spec fn upper_of(c: char) -> Seq<char>;

/// Relies on std's char::to_uppercase: the result is the Unicode
/// uppercase mapping of the character (the character itself where none
/// exists) and depends on the character alone.
#[verifier::external_body]
fn uppercase_char(c: char) -> (r: String)
    ensures
        r@ == upper_of(c),
{
    c.to_uppercase().collect()
}

/// Capitalization of an asset name, as the URLs use it: the known
/// irregular name keeps its inner capital; otherwise the first
/// character is replaced by its uppercase mapping and the rest is
/// kept.
pub open spec fn spec_up(s: Seq<char>) -> Seq<char> {
    if s == "teary-eyed"@ {
        "Teary-Eyed"@
    } else if s.len() == 0 {
        s
    } else {
        upper_of(s[0]) + s.drop_first()
    }
}

/// Capitalizes an asset name for use in a URL.
pub fn up(s: &str) -> (r: String)
    ensures
        r@ == spec_up(s@),
{
    if str_eq(s, "teary-eyed") {
        return "Teary-Eyed".to_owned();
    }
    let n = s.unicode_len();
    if n == 0 {
        return s.to_owned();
    }
    let mut r = uppercase_char(s.get_char(0));
    r.append(s.substring_char(1, n));
    proof {
        assert(s@.subrange(1, n as int) =~= s@.drop_first());
    }
    r
}

/// The joined form-path part of a URL: one slash-prefixed four-wide
/// zero-padded component per form-path element, empty for an empty path.
pub open spec fn spec_form_joined(path: Seq<i32>) -> Seq<char>
    decreases path.len(),
{
    if path.len() == 0 {
        Seq::empty()
    } else {
        spec_form_joined(path.drop_last()) + seq!['/'] + spec_pad4(path.last() as int)
    }
}

/// Renders the joined form-path part of a URL.
pub fn form_joined(path: &[i32]) -> (r: String)
    ensures
        r@ == spec_form_joined(path@),
{
    let mut r = String::new();
    let n = path.len();
    let mut i: usize = 0;
    proof {
        assert(path@.take(0) =~= Seq::<i32>::empty());
        assert(r@ =~= spec_form_joined(path@.take(0)));
    }
    while i < n
        invariant
            n == path@.len(),
            i <= n,
            r@ == spec_form_joined(path@.take(i as int)),
        decreases n - i,
    {
        let v = path[i];
        r.append("/");
        let p = pad4(v);
        r.append(p.as_str());
        proof {
            reveal_strlit("/");
            assert("/"@ =~= seq!['/']);
            assert(path@.take(i as int + 1).drop_last() =~= path@.take(i as int));
            assert(path@.take(i as int + 1).last() == path@[i as int]);
            assert(r@ =~= spec_form_joined(path@.take(i as int + 1)));
        }
        i += 1;
    }
    proof {
        assert(path@.take(n as int) =~= path@);
    }
    r
}

/// The URL for an asset: which server serves it, the fixed directory
/// for its kind, the four-wide entity id, the joined form path, and the
/// kind's file name.
pub open spec fn spec_get_url(
    asset_type: AssetType<'_>,
    this_srv: Seq<char>,
    assets_srv: Seq<char>,
    monster_id: int,
    form: Seq<i32>,
) -> Seq<char> {
    match asset_type {
        AssetType::PortraitSheet => this_srv + "/assets/"@ + spec_pad4(monster_id)
            + spec_form_joined(form) + "/portrait_sheet.png"@,
        AssetType::PortraitRecolorSheet => this_srv + "/assets/"@ + spec_pad4(monster_id)
            + spec_form_joined(form) + "/portrait_recolor_sheet.png"@,
        AssetType::Portrait(emotion) => assets_srv + "/portrait/"@ + spec_pad4(monster_id)
            + spec_form_joined(form) + "/"@ + spec_up(emotion@) + ".png"@,
        AssetType::PortraitFlipped(emotion) => assets_srv + "/portrait/"@ + spec_pad4(monster_id)
            + spec_form_joined(form) + "/"@ + spec_up(emotion@) + "^.png"@,
        AssetType::SpriteAnimDataXml => assets_srv + "/sprite/"@ + spec_pad4(monster_id)
            + spec_form_joined(form) + "/AnimData.xml"@,
        AssetType::SpriteZip => this_srv + "/assets/"@ + spec_pad4(monster_id) + spec_form_joined(
            form,
        ) + "/sprites.zip"@,
        AssetType::SpriteRecolorSheet => this_srv + "/assets/"@ + spec_pad4(monster_id)
            + spec_form_joined(form) + "/sprite_recolor_sheet.png"@,
        AssetType::SpriteAnim(action) => assets_srv + "/sprite/"@ + spec_pad4(monster_id)
            + spec_form_joined(form) + "/"@ + spec_up(action@) + "-Anim.png"@,
        AssetType::SpriteOffsets(action) => assets_srv + "/sprite/"@ + spec_pad4(monster_id)
            + spec_form_joined(form) + "/"@ + spec_up(action@) + "-Offsets.png"@,
        AssetType::SpriteShadows(action) => assets_srv + "/sprite/"@ + spec_pad4(monster_id)
            + spec_form_joined(form) + "/"@ + spec_up(action@) + "-Shadow.png"@,
    }
}

/// Builds the URL under which an asset of an entity's form is served.
/// Sheets and archives are served by this service (`this_srv_url`);
/// single portraits and sprite files come straight from the asset
/// server (`assets_srv_url`).
pub fn get_url(
    asset_type: AssetType<'_>,
    this_srv_url: &str,
    assets_srv_url: &str,
    monster_id: i32,
    path_to_form: &[i32],
) -> (r: String)
    ensures
        r@ == spec_get_url(
            asset_type,
            this_srv_url@,
            assets_srv_url@,
            monster_id as int,
            path_to_form@,
        ),
{
    let fj = form_joined(path_to_form);
    let idp = pad4(monster_id);
    match asset_type {
        AssetType::PortraitSheet => {
            let mut r = this_srv_url.to_owned();
            r.append("/assets/");
            r.append(idp.as_str());
            r.append(fj.as_str());
            r.append("/portrait_sheet.png");
            r
        },
        AssetType::PortraitRecolorSheet => {
            let mut r = this_srv_url.to_owned();
            r.append("/assets/");
            r.append(idp.as_str());
            r.append(fj.as_str());
            r.append("/portrait_recolor_sheet.png");
            r
        },
        AssetType::Portrait(emotion) => {
            let mut r = assets_srv_url.to_owned();
            r.append("/portrait/");
            r.append(idp.as_str());
            r.append(fj.as_str());
            r.append("/");
            r.append(up(emotion).as_str());
            r.append(".png");
            r
        },
        AssetType::PortraitFlipped(emotion) => {
            let mut r = assets_srv_url.to_owned();
            r.append("/portrait/");
            r.append(idp.as_str());
            r.append(fj.as_str());
            r.append("/");
            r.append(up(emotion).as_str());
            r.append("^.png");
            r
        },
        AssetType::SpriteAnimDataXml => {
            let mut r = assets_srv_url.to_owned();
            r.append("/sprite/");
            r.append(idp.as_str());
            r.append(fj.as_str());
            r.append("/AnimData.xml");
            r
        },
        AssetType::SpriteZip => {
            let mut r = this_srv_url.to_owned();
            r.append("/assets/");
            r.append(idp.as_str());
            r.append(fj.as_str());
            r.append("/sprites.zip");
            r
        },
        AssetType::SpriteRecolorSheet => {
            let mut r = this_srv_url.to_owned();
            r.append("/assets/");
            r.append(idp.as_str());
            r.append(fj.as_str());
            r.append("/sprite_recolor_sheet.png");
            r
        },
        AssetType::SpriteAnim(action) => {
            let mut r = assets_srv_url.to_owned();
            r.append("/sprite/");
            r.append(idp.as_str());
            r.append(fj.as_str());
            r.append("/");
            r.append(up(action).as_str());
            r.append("-Anim.png");
            r
        },
        AssetType::SpriteOffsets(action) => {
            let mut r = assets_srv_url.to_owned();
            r.append("/sprite/");
            r.append(idp.as_str());
            r.append(fj.as_str());
            r.append("/");
            r.append(up(action).as_str());
            r.append("-Offsets.png");
            r
        },
        AssetType::SpriteShadows(action) => {
            let mut r = assets_srv_url.to_owned();
            r.append("/sprite/");
            r.append(idp.as_str());
            r.append(fj.as_str());
            r.append("/");
            r.append(up(action).as_str());
            r.append("-Shadow.png");
            r
        },
    }
}

fn chars_of(s: &str) -> (v: Vec<char>)
    ensures
        v@ == s@,
{
    let n = s.unicode_len();
    let mut v: Vec<char> = Vec::new();
    let mut i: usize = 0;
    proof {
        assert(v@ =~= s@.take(0));
    }
    while i < n
        invariant
            n == s@.len(),
            i <= n,
            v@ == s@.take(i as int),
        decreases n - i,
    {
        v.push(s.get_char(i));
        proof {
            assert(v@ =~= s@.take(i as int + 1));
        }
        i += 1;
    }
    proof {
        assert(s@.take(n as int) =~= s@);
    }
    v
}

fn chars_eq_lit(seg: &Vec<char>, lit: &str) -> (r: bool)
    ensures
        r == (seg@ == lit@),
{
    let n = seg.len();
    if n != lit.unicode_len() {
        return false;
    }
    let mut i: usize = 0;
    while i < n
        invariant
            n == seg.len() == lit@.len(),
            i <= n,
            forall|j: int| 0 <= j < i ==> seg@[j] == lit@[j],
        decreases n - i,
    {
        if seg[i] != lit.get_char(i) {
            return false;
        }
        i += 1;
    }
    proof {
        assert(seg@ =~= lit@);
    }
    true
}

/// Which asset kind a template's file name stands for.
pub open spec fn spec_suffix_asset(sfx: Seq<char>) -> Option<AssetType<'static>> {
    if sfx == "portrait_sheet.png"@ {
        Some(AssetType::PortraitSheet)
    } else if sfx == "portrait_recolor_sheet.png"@ {
        Some(AssetType::PortraitRecolorSheet)
    } else if sfx == "sprites.zip"@ {
        Some(AssetType::SpriteZip)
    } else if sfx == "sprite_recolor_sheet.png"@ {
        Some(AssetType::SpriteRecolorSheet)
    } else {
        None
    }
}

/// The form path read from the middle segments of a request path:
/// every segment as a decimal integer, or nothing if one fails.
pub open spec fn spec_parse_forms(fs: Seq<Seq<char>>) -> Option<Seq<i32>>
    decreases fs.len(),
{
    if fs.len() == 0 {
        Some(Seq::empty())
    } else {
        match spec_parse_forms(fs.drop_last()) {
            None => None,
            Some(pre) => match spec_parse_i32(fs.last()) {
                None => None,
                Some(v) => Some(pre.push(v)),
            },
        }
    }
}

proof fn lemma_parse_forms_none(fs: Seq<Seq<char>>, k: int)
    requires
        0 <= k < fs.len(),
        spec_parse_i32(fs[k]) is None,
    ensures
        spec_parse_forms(fs) is None,
    decreases fs.len(),
{
    if k < fs.len() - 1 {
        lemma_parse_forms_none(fs.drop_last(), k);
    }
}

/// What a request path matches against the fixed templates
/// `/assets/<id>/<form path...>/<known file name>`: the path splits at
/// every slash into an empty head, the assets directory, a decimal
/// entity id, zero or more decimal form-path segments, and a known
/// asset file name -- or it matches nothing.
pub open spec fn spec_match_url(s: Seq<char>) -> Option<(i32, Seq<i32>, AssetType<'static>)> {
    let segs = spec_split(s, '/');
    if segs.len() < 4 || segs[0].len() != 0 || segs[1] != "assets"@ {
        None
    } else {
        match spec_suffix_asset(segs.last()) {
            None => None,
            Some(at) => match spec_parse_i32(segs[2]) {
                None => None,
                Some(id) => match spec_parse_forms(segs.subrange(3, segs.len() - 1)) {
                    None => None,
                    Some(fp) => Some((id, fp, at)),
                },
            },
        }
    }
}

/// Matches a request path; on a match returns the entity id, the form
/// path and the asset kind the path asks for.
pub fn match_url(path: &str) -> (r: Option<(i32, Vec<i32>, AssetType<'static>)>)
    ensures
        r is Some <==> spec_match_url(path@) is Some,
        r matches Some(t) ==> spec_match_url(path@) matches Some(st) && t.0 == st.0 && t.1@ == st.1
            && t.2 == st.2,
{
    let chars = chars_of(path);
    let segs = split_chars(&chars, '/');
    let ghost gsegs = spec_split(path@, '/');
    proof {
        assert(segs@.map_values(|v: Vec<char>| v@) == gsegs);
        assert(gsegs.len() == segs@.len());
    }
    let nseg = segs.len();
    if nseg < 4 {
        return None;
    }
    proof {
        assert(gsegs[0] == segs@[0]@);
        assert(gsegs[1] == segs@[1]@);
        assert(gsegs[2] == segs@[2]@);
        assert(gsegs.last() == segs@[nseg - 1]@);
    }
    if segs[0].len() != 0 {
        return None;
    }
    if !chars_eq_lit(&segs[1], "assets") {
        return None;
    }
    let sfx = &segs[nseg - 1];
    let at: AssetType<'static> = if chars_eq_lit(sfx, "portrait_sheet.png") {
        AssetType::PortraitSheet
    } else if chars_eq_lit(sfx, "portrait_recolor_sheet.png") {
        AssetType::PortraitRecolorSheet
    } else if chars_eq_lit(sfx, "sprites.zip") {
        AssetType::SpriteZip
    } else if chars_eq_lit(sfx, "sprite_recolor_sheet.png") {
        AssetType::SpriteRecolorSheet
    } else {
        return None;
    };
    proof {
        assert(spec_suffix_asset(gsegs.last()) == Some(at));
    }
    let id = match parse_i32(&segs[2]) {
        Some(id) => id,
        None => {
            return None;
        },
    };
    let ghost forms_segs = gsegs.subrange(3, gsegs.len() - 1);
    let mut fp: Vec<i32> = Vec::new();
    let mut k: usize = 3;
    proof {
        assert(forms_segs.take(0) =~= Seq::<Seq<char>>::empty());
        assert(spec_parse_forms(forms_segs.take(0)) == Some(fp@));
        assert(fp@ =~= Seq::<i32>::empty());
    }
    while k < nseg - 1
        invariant
            nseg == segs@.len(),
            nseg >= 4,
            3 <= k <= nseg - 1,
            gsegs == segs@.map_values(|v: Vec<char>| v@),
            gsegs == spec_split(path@, '/'),
            forms_segs == gsegs.subrange(3, gsegs.len() - 1),
            gsegs.len() == nseg,
            gsegs[0].len() == 0,
            gsegs[1] == "assets"@,
            spec_suffix_asset(gsegs.last()) == Some(at),
            spec_parse_i32(gsegs[2]) == Some(id),
            spec_parse_forms(forms_segs.take(k - 3)) == Some(fp@),
        decreases nseg - 1 - k,
    {
        proof {
            assert(gsegs[k as int] == segs@[k as int]@);
            assert(forms_segs[k - 3] == gsegs[k as int]);
        }
        match parse_i32(&segs[k]) {
            Some(v) => {
                fp.push(v);
                proof {
                    assert(forms_segs.take(k - 3 + 1).drop_last() =~= forms_segs.take(k - 3));
                    assert(forms_segs.take(k - 3 + 1).last() == forms_segs[k - 3]);
                }
            },
            None => {
                proof {
                    lemma_parse_forms_none(forms_segs, k - 3);
                }
                return None;
            },
        }
        k += 1;
    }
    proof {
        assert(forms_segs.take(nseg - 1 - 3) =~= forms_segs);
    }
    Some((id, fp, at))
}

} // verus!
