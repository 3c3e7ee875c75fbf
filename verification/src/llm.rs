//! The static model catalog: the records offered to the UI and the reader
//! that loads them from the catalog document.  Sampling parameters are read
//! from decimal tokens into millionths, as everywhere in this crate.
use vstd::prelude::*;
use crate::json::{
    Json, JsonV, digits_val, lemma_view_list_index, lookup, obj_get, parse_digits, parse_json,
    parse_json_s, view_list, view_members,
};
use crate::parse::{str_field, u32_field};
use crate::text::chars_of;

verus! {

/// Sampling defaults of one offered model, with the fractional parameters in
/// millionths of a unit.
pub struct ModelParams {
    pub max_tokens: u32,
    pub temperature: u32,
    pub top_p: u32,
}

impl Default for ModelParams {
    /// All-zero defaults.
    fn default() -> (r: Self)
        ensures
            r.max_tokens == 0 && r.temperature == 0 && r.top_p == 0,
    {
        ModelParams { max_tokens: 0, temperature: 0, top_p: 0 }
    }
}

/// One offered model, as the catalog document describes it.
pub struct ModelInfo {
    pub id: String,
    pub display_name: String,
    pub provider: String,
    pub tags: Vec<String>,
    pub params: ModelParams,
}

pub ghost struct ModelInfoV {
    pub id: Seq<char>,
    pub display_name: Seq<char>,
    pub provider: Seq<char>,
    pub tags: Seq<Seq<char>>,
    pub params: ModelParams,
}

pub open spec fn tag_views(s: Seq<String>) -> Seq<Seq<char>> {
    s.map_values(|t: String| t@)
}

impl View for ModelInfo {
    type V = ModelInfoV;

    open spec fn view(&self) -> ModelInfoV {
        ModelInfoV {
            id: self.id@,
            display_name: self.display_name@,
            provider: self.provider@,
            tags: tag_views(self.tags@),
            params: self.params,
        }
    }
}

pub open spec fn model_views(s: Seq<ModelInfo>) -> Seq<ModelInfoV> {
    s.map_values(|m: ModelInfo| m@)
}

impl Default for ModelInfo {
    /// An empty record with all-zero parameters.
    fn default() -> (r: Self)
        ensures
            r@.id == Seq::<char>::empty(),
            r@.display_name == Seq::<char>::empty(),
            r@.provider == Seq::<char>::empty(),
            r@.tags == Seq::<Seq<char>>::empty(),
            r@.params.max_tokens == 0 && r@.params.temperature == 0 && r@.params.top_p == 0,
    {
        let r = ModelInfo {
            id: String::new(),
            display_name: String::new(),
            provider: String::new(),
            tags: Vec::new(),
            params: ModelParams::default(),
        };
        proof {
            assert(tag_views(r.tags@) =~= Seq::<Seq<char>>::empty());
        }
        r
    }
}

/// The whole catalog document: a list of offered models, in file order.
pub struct Root {
    pub models: Vec<ModelInfo>,
}

pub ghost struct RootV {
    pub models: Seq<ModelInfoV>,
}

impl View for Root {
    type V = RootV;

    open spec fn view(&self) -> RootV {
        RootV { models: model_views(self.models@) }
    }
}

/// First position at or after `i` past the decimal digits.
pub open spec fn digits_end(s: Seq<char>, i: int) -> int
    decreases s.len() - i,
{
    if 0 <= i && i < s.len() && '0' <= s[i] && s[i] <= '9' {
        digits_end(s, i + 1)
    } else {
        i
    }
}

/// The scale that turns a fraction of the given digit count into millionths.
pub open spec fn frac_scale(fl: int) -> int {
    if fl == 1 {
        100000
    } else if fl == 2 {
        10000
    } else if fl == 3 {
        1000
    } else if fl == 4 {
        100
    } else if fl == 5 {
        10
    } else {
        1
    }
}

/// Millionths denoted by a decimal number token: digits, optionally followed
/// by a dot and one to six fraction digits.  Negative for any other shape.
pub open spec fn micros_of_num(s: Seq<char>) -> int {
    let k = digits_end(s, 0);
    if !(0 < k && k <= s.len()) {
        -1
    } else {
        let ip = digits_val(s.subrange(0, k));
        if ip < 0 {
            -1
        } else if k == s.len() {
            ip * 1000000
        } else if s[k] == '.' {
            let e = digits_end(s, k + 1);
            if e != s.len() {
                -1
            } else {
                let fl = e - (k + 1);
                if fl < 1 || fl > 6 {
                    -1
                } else {
                    let fv = digits_val(s.subrange(k + 1, e));
                    if fv < 0 {
                        -1
                    } else {
                        ip * 1000000 + fv * frac_scale(fl)
                    }
                }
            }
        } else {
            -1
        }
    }
}

/// The millionths a number token denotes, when they fit a 32-bit word.
pub open spec fn as_micros(j: JsonV) -> Option<u32> {
    match j {
        JsonV::Num(raw) => if 0 <= micros_of_num(raw) <= u32::MAX {
            Some(micros_of_num(raw) as u32)
        } else {
            None
        },
        _ => None,
    }
}

/// First position at or after `i` past the decimal digits.
fn digits_end_e(v: &Vec<char>, i: usize) -> (r: usize)
    requires
        i <= v@.len(),
    ensures
        i <= r <= v@.len(),
        r as int == digits_end(v@, i as int),
{
    let mut j = i;
    while j < v.len() && '0' <= v[j] && v[j] <= '9'
        invariant
            i <= j <= v@.len(),
            digits_end(v@, i as int) == digits_end(v@, j as int),
        decreases v@.len() - j,
    {
        j += 1;
    }
    j
}

/// When the whole token is worth something, it is worth at least the scaled
/// integer part, which is at least the integer part itself.
proof fn lemma_micros_at_least_parts(raw: Seq<char>)
    requires
        micros_of_num(raw) >= 0,
    ensures
        micros_of_num(raw) >= digits_val(raw.subrange(0, digits_end(raw, 0))),
        digits_end(raw, 0) < raw.len() ==> micros_of_num(raw) >= digits_val(
            raw.subrange(digits_end(raw, 0) + 1, digits_end(raw, digits_end(raw, 0) + 1)),
        ),
{
    let k = digits_end(raw, 0);
    let ip = digits_val(raw.subrange(0, k));
    assert(ip >= 0);
    assert(ip * 1000000 >= ip) by (nonlinear_arith)
        requires
            ip >= 0,
    ;
    if k < raw.len() {
        let e = digits_end(raw, k + 1);
        let fl = e - (k + 1);
        let fv = digits_val(raw.subrange(k + 1, e));
        assert(fv >= 0);
        assert(frac_scale(fl) >= 1);
        assert(fv * frac_scale(fl) >= fv) by (nonlinear_arith)
            requires
                fv >= 0,
                frac_scale(fl) >= 1,
        ;
    }
}

/// Reads a number token as millionths.
pub fn json_micros(j: &Json) -> (r: Option<u32>)
    ensures
        r == as_micros(j@),
{
    let s = match j {
        Json::Num(s) => s,
        _ => {
            return None;
        },
    };
    let ghost raw = s@;
    let v = chars_of(s.as_str());
    let n = v.len();
    let k = digits_end_e(&v, 0);
    if k == 0 {
        return None;
    }
    let ip = match parse_digits(&v, 0, k) {
        Some(ip) => ip,
        None => {
            proof {
                if micros_of_num(raw) >= 0 {
                    lemma_micros_at_least_parts(raw);
                }
            }
            return None;
        },
    };
    if ip > 4294 {
        proof {
            if micros_of_num(raw) >= 0 {
                lemma_micros_at_least_parts(raw);
                let ip2 = digits_val(raw.subrange(0, digits_end(raw, 0)));
                assert(ip2 * 1000000 >= 4295 * 1000000) by (nonlinear_arith)
                    requires
                        ip2 >= 4295,
                ;
                assert(micros_of_num(raw) >= ip2 * 1000000) by {
                    let kk = digits_end(raw, 0);
                    if kk < raw.len() {
                        let ee = digits_end(raw, kk + 1);
                        let fl2 = ee - (kk + 1);
                        let fv2 = digits_val(raw.subrange(kk + 1, ee));
                        assert(fv2 >= 0);
                        assert(frac_scale(fl2) >= 1);
                        assert(fv2 * frac_scale(fl2) >= 0) by (nonlinear_arith)
                            requires
                                fv2 >= 0,
                                frac_scale(fl2) >= 1,
                        ;
                    }
                }
            }
        }
        return None;
    }
    if k == n {
        let m = ip * 1000000;
        if m > 4294967295 {
            return None;
        }
        return Some(m as u32);
    }
    if v[k] == '.' {
        let e = digits_end_e(&v, k + 1);
        if e != n {
            return None;
        }
        let fl = e - (k + 1);
        if fl < 1 || fl > 6 {
            return None;
        }
        let fv = match parse_digits(&v, k + 1, e) {
            Some(fv) => fv,
            None => {
                proof {
                    if micros_of_num(raw) >= 0 {
                        lemma_micros_at_least_parts(raw);
                    }
                }
                return None;
            },
        };
        if fv > 4294967295 {
            proof {
                if micros_of_num(raw) >= 0 {
                    lemma_micros_at_least_parts(raw);
                }
            }
            return None;
        }
        let scaled: u64 = if fl == 1 {
            fv * 100000
        } else if fl == 2 {
            fv * 10000
        } else if fl == 3 {
            fv * 1000
        } else if fl == 4 {
            fv * 100
        } else if fl == 5 {
            fv * 10
        } else {
            fv
        };
        let m = ip * 1000000 + scaled;
        if m > 4294967295 {
            return None;
        }
        Some(m as u32)
    } else {
        None
    }
}

/// A parameter member holding a decimal number read as millionths.
pub open spec fn micros_field(m: Seq<(Seq<char>, JsonV)>, key: Seq<char>) -> Option<u32> {
    match lookup(m, key) {
        Some(j) => as_micros(j),
        None => None,
    }
}

/// Reads a parameter member as millionths.
pub fn get_micros_field(members: &Vec<(String, Json)>, key: &str) -> (r: Option<u32>)
    ensures
        r == micros_field(view_members(members@), key@),
{
    match obj_get(members, key) {
        Some(j) => json_micros(j),
        None => None,
    }
}

/// The sampling defaults of one model.
pub open spec fn params_of(j: JsonV) -> Option<ModelParams> {
    match j {
        JsonV::Obj(m) => {
            let mt = u32_field(m, "max_tokens"@);
            let te = micros_field(m, "temperature"@);
            let tp = micros_field(m, "top_p"@);
            if mt is Some && te is Some && tp is Some {
                Some(ModelParams { max_tokens: mt->0, temperature: te->0, top_p: tp->0 })
            } else {
                None
            }
        },
        _ => None,
    }
}

/// The strings of an array that must hold only strings.
pub open spec fn strings_of(items: Seq<JsonV>) -> Option<Seq<Seq<char>>>
    decreases items.len(),
{
    if items.len() == 0 {
        Some(Seq::empty())
    } else {
        match items[0] {
            JsonV::Str(s) => match strings_of(items.drop_first()) {
                Some(rest) => Some(seq![s] + rest),
                None => None,
            },
            _ => None,
        }
    }
}

/// One catalog record.
pub open spec fn model_info_of(j: JsonV) -> Option<ModelInfoV> {
    match j {
        JsonV::Obj(m) => {
            let id = str_field(m, "id"@);
            let dn = str_field(m, "display_name"@);
            let pr = str_field(m, "provider"@);
            let tags = match lookup(m, "tags"@) {
                Some(JsonV::Arr(items)) => strings_of(items),
                _ => None,
            };
            let params = match lookup(m, "params"@) {
                Some(p) => params_of(p),
                None => None,
            };
            if id is Some && dn is Some && pr is Some && tags is Some && params is Some {
                Some(
                    ModelInfoV {
                        id: id->0,
                        display_name: dn->0,
                        provider: pr->0,
                        tags: tags->0,
                        params: params->0,
                    },
                )
            } else {
                None
            }
        },
        _ => None,
    }
}

pub open spec fn models_of(items: Seq<JsonV>) -> Option<Seq<ModelInfoV>>
    decreases items.len(),
{
    if items.len() == 0 {
        Some(Seq::empty())
    } else {
        match model_info_of(items[0]) {
            Some(m) => match models_of(items.drop_first()) {
                Some(rest) => Some(seq![m] + rest),
                None => None,
            },
            None => None,
        }
    }
}

/// The whole catalog, read from a parsed document.
pub open spec fn catalog_of(j: JsonV) -> Option<RootV> {
    match j {
        JsonV::Obj(m) => match lookup(m, "models"@) {
            Some(JsonV::Arr(items)) => match models_of(items) {
                Some(ms) => Some(RootV { models: ms }),
                None => None,
            },
            _ => None,
        },
        _ => None,
    }
}

/// The catalog a text denotes: the parsed document, read as a catalog.
pub open spec fn catalog_from_text(s: Seq<char>) -> Option<RootV> {
    match parse_json_s(s) {
        Some(j) => catalog_of(j),
        None => None,
    }
}

/// Reads the strings of a tag array.
fn strings_from_json(items: &Vec<Json>) -> (r: Option<Vec<String>>)
    ensures
        match r {
            Some(ts) => strings_of(view_list(items@)) == Some(tag_views(ts@)),
            None => strings_of(view_list(items@)) is None,
        },
{
    let ghost vl = view_list(items@);
    proof {
        lemma_view_list_index(items@);
    }
    let mut acc: Vec<String> = Vec::new();
    let mut i: usize = 0;
    proof {
        assert(vl.skip(0) =~= vl);
        assert(tag_views(acc@) =~= Seq::<Seq<char>>::empty());
    }
    while i < items.len()
        invariant
            i <= items@.len(),
            acc@.len() == i,
            vl == view_list(items@),
            vl.len() == items@.len(),
            forall|t: int| 0 <= t < items@.len() ==> vl[t] == items@[t]@,
            strings_of(vl) == (match strings_of(vl.skip(i as int)) {
                Some(rest) => Some(tag_views(acc@) + rest),
                None => None::<Seq<Seq<char>>>,
            }),
        decreases items@.len() - i,
    {
        proof {
            assert(vl.skip(i as int).len() == vl.len() - i);
            assert(vl.skip(i as int)[0] == vl[i as int]);
            assert(vl.skip(i as int).drop_first() =~= vl.skip(i + 1));
        }
        match &items[i] {
            Json::Str(s) => {
                let ghost accold = acc@;
                acc.push(s.clone());
                proof {
                    assert(tag_views(acc@) =~= tag_views(accold) + seq![acc@[i as int]@]);
                }
            },
            _ => {
                return None;
            },
        }
        i += 1;
    }
    proof {
        assert(vl.skip(items@.len() as int) =~= Seq::<JsonV>::empty());
        assert(tag_views(acc@) + Seq::<Seq<char>>::empty() =~= tag_views(acc@));
    }
    Some(acc)
}

/// Reads the sampling defaults of one model.
fn params_from_json(j: &Json) -> (r: Option<ModelParams>)
    ensures
        r == params_of(j@),
{
    let members = match j {
        Json::Obj(m) => m,
        _ => {
            return None;
        },
    };
    let mt = match crate::parse::get_u32_field(members, "max_tokens") {
        Some(n) => n,
        None => {
            return None;
        },
    };
    let te = match get_micros_field(members, "temperature") {
        Some(n) => n,
        None => {
            return None;
        },
    };
    match get_micros_field(members, "top_p") {
        Some(tp) => Some(ModelParams { max_tokens: mt, temperature: te, top_p: tp }),
        None => None,
    }
}

/// Reads one catalog record.
fn model_info_from_json(j: &Json) -> (r: Option<ModelInfo>)
    ensures
        match r {
            Some(m) => model_info_of(j@) == Some(m@),
            None => model_info_of(j@) is None,
        },
{
    let members = match j {
        Json::Obj(m) => m,
        _ => {
            return None;
        },
    };
    let id = match crate::parse::get_str_field(members, "id") {
        Some(s) => s,
        None => {
            return None;
        },
    };
    let display_name = match crate::parse::get_str_field(members, "display_name") {
        Some(s) => s,
        None => {
            return None;
        },
    };
    let provider = match crate::parse::get_str_field(members, "provider") {
        Some(s) => s,
        None => {
            return None;
        },
    };
    let tags = match obj_get(members, "tags") {
        Some(Json::Arr(items)) => match strings_from_json(items) {
            Some(ts) => ts,
            None => {
                return None;
            },
        },
        _ => {
            return None;
        },
    };
    let params = match obj_get(members, "params") {
        Some(p) => match params_from_json(p) {
            Some(ps) => ps,
            None => {
                return None;
            },
        },
        None => {
            return None;
        },
    };
    Some(ModelInfo { id, display_name, provider, tags, params })
}

/// Reads the catalog records.
fn models_from_json(items: &Vec<Json>) -> (r: Option<Vec<ModelInfo>>)
    ensures
        match r {
            Some(ms) => models_of(view_list(items@)) == Some(model_views(ms@)),
            None => models_of(view_list(items@)) is None,
        },
{
    let ghost vl = view_list(items@);
    proof {
        lemma_view_list_index(items@);
    }
    let mut acc: Vec<ModelInfo> = Vec::new();
    let mut i: usize = 0;
    proof {
        assert(vl.skip(0) =~= vl);
        assert(model_views(acc@) =~= Seq::<ModelInfoV>::empty());
    }
    while i < items.len()
        invariant
            i <= items@.len(),
            acc@.len() == i,
            vl == view_list(items@),
            vl.len() == items@.len(),
            forall|t: int| 0 <= t < items@.len() ==> vl[t] == items@[t]@,
            models_of(vl) == (match models_of(vl.skip(i as int)) {
                Some(rest) => Some(model_views(acc@) + rest),
                None => None::<Seq<ModelInfoV>>,
            }),
        decreases items@.len() - i,
    {
        proof {
            assert(vl.skip(i as int).len() == vl.len() - i);
            assert(vl.skip(i as int)[0] == vl[i as int]);
            assert(vl.skip(i as int).drop_first() =~= vl.skip(i + 1));
        }
        match model_info_from_json(&items[i]) {
            Some(m) => {
                let ghost accold = acc@;
                acc.push(m);
                proof {
                    assert(model_views(acc@) =~= model_views(accold) + seq![acc@[i as int]@]);
                }
            },
            None => {
                return None;
            },
        }
        i += 1;
    }
    proof {
        assert(vl.skip(items@.len() as int) =~= Seq::<JsonV>::empty());
        assert(model_views(acc@) + Seq::<ModelInfoV>::empty() =~= model_views(acc@));
    }
    Some(acc)
}

/// Reads a whole catalog from its document text: parse, then extract.
pub fn parse_catalog(text: &str) -> (r: Option<Root>)
    ensures
        match r {
            Some(root) => catalog_from_text(text@) == Some(root@),
            None => catalog_from_text(text@) is None,
        },
{
    let doc = match parse_json(text) {
        Some(j) => j,
        None => {
            return None;
        },
    };
    let members = match &doc {
        Json::Obj(m) => m,
        _ => {
            return None;
        },
    };
    match obj_get(members, "models") {
        Some(Json::Arr(items)) => match models_from_json(items) {
            Some(ms) => Some(Root { models: ms }),
            None => None,
        },
        _ => None,
    }
}

} // verus!
