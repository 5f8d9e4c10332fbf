//! Named prompt presets: the built-in set, overlaid by the user's own.

use vstd::prelude::*;

use crate::config::{format_of, opt_view, OutputFormat};
use crate::error::VisionError;

verus! {

/// A reusable prompt, with the output format and image count it expects.
#[derive(Debug, Clone)]
pub struct Preset {
    pub prompt: String,
    pub format: Option<String>,
    pub two_images: bool,
}

impl Preset {
    /// The output format the preset asks for, when it names a known one.
    pub fn output_format(&self) -> (r: Option<OutputFormat>)
        ensures
            r == format_of(opt_view(self.format)),
    {
        match &self.format {
            Some(f) => OutputFormat::parse(f.as_str()),
            None => None,
        }
    }
}

/// A set of presets keyed by name.
#[derive(Debug, Clone)]
pub struct PresetStore {
    presets: Vec<(String, Preset)>,
}

/// The presets named by a list of entries: a later entry replaces an earlier one
/// of the same name.
pub open spec fn entries_map(e: Seq<(String, Preset)>) -> Map<Seq<char>, Preset>
    decreases e.len(),
{
    if e.len() == 0 {
        Map::empty()
    } else {
        entries_map(e.drop_last()).insert(e.last().0@, e.last().1)
    }
}

/// No entry after index `j` has the name of entry `j`.
pub open spec fn is_last_of_name(e: Seq<(String, Preset)>, j: int) -> bool {
    forall|i: int| j < i < e.len() ==> #[trigger] e[i].0@ != e[j].0@
}

impl View for PresetStore {
    type V = Map<Seq<char>, Preset>;

    closed spec fn view(&self) -> Map<Seq<char>, Preset> {
        entries_map(self.presets@)
    }
}

proof fn lemma_entries_absent(e: Seq<(String, Preset)>, k: Seq<char>)
    requires
        forall|i: int| 0 <= i < e.len() ==> #[trigger] e[i].0@ != k,
    ensures
        !entries_map(e).contains_key(k),
    decreases e.len(),
{
    if e.len() > 0 {
        assert forall|i: int| 0 <= i < e.drop_last().len() implies #[trigger] e.drop_last()[i].0@
            != k by {
            assert(e.drop_last()[i] == e[i]);
        }
        lemma_entries_absent(e.drop_last(), k);
        assert(e[e.len() - 1].0@ != k);
    }
}

proof fn lemma_entries_last(e: Seq<(String, Preset)>, j: int)
    requires
        0 <= j < e.len(),
        is_last_of_name(e, j),
    ensures
        entries_map(e).contains_key(e[j].0@),
        entries_map(e)[e[j].0@] == e[j].1,
    decreases e.len(),
{
    if j < e.len() - 1 {
        let d = e.drop_last();
        assert(d[j] == e[j]);
        assert(e[e.len() - 1].0@ != e[j].0@);
        assert forall|i: int| j < i < d.len() implies #[trigger] d[i].0@ != d[j].0@ by {
            assert(d[i] == e[i]);
        }
        lemma_entries_last(d, j);
    }
}

proof fn lemma_entries_dom(e: Seq<(String, Preset)>, k: Seq<char>)
    ensures
        entries_map(e).contains_key(k) <==> exists|i: int| 0 <= i < e.len() && #[trigger] e[i].0@
            == k,
    decreases e.len(),
{
    if e.len() > 0 {
        let d = e.drop_last();
        lemma_entries_dom(d, k);
        if exists|i: int| 0 <= i < d.len() && #[trigger] d[i].0@ == k {
            let i = choose|i: int| 0 <= i < d.len() && #[trigger] d[i].0@ == k;
            assert(e[i] == d[i]);
        }
        if exists|i: int| 0 <= i < e.len() && #[trigger] e[i].0@ == k {
            let i = choose|i: int| 0 <= i < e.len() && #[trigger] e[i].0@ == k;
            if i < e.len() - 1 {
                assert(d[i] == e[i]);
            }
        }
    }
}

proof fn lemma_entries_append(a: Seq<(String, Preset)>, b: Seq<(String, Preset)>)
    ensures
        entries_map(a + b) == entries_map(a).union_prefer_right(entries_map(b)),
    decreases b.len(),
{
    if b.len() == 0 {
        assert(a + b =~= a);
        assert(entries_map(a).union_prefer_right(entries_map(b)) =~= entries_map(a));
    } else {
        lemma_entries_append(a, b.drop_last());
        assert((a + b).drop_last() =~= a + b.drop_last());
        assert((a + b).last() == b.last());
        assert(entries_map(a + b) =~= entries_map(a).union_prefer_right(entries_map(b)));
    }
}

/// The prompt of the built-in `ui` preset.
pub const UI_PROMPT: &'static str = "List every visible UI element on this screen (buttons, fields, labels, icons, images) with its label and state, and every visual defect (overlap, clipping, misalignment, unreadable text). Answer only with JSON: {\"elements\": [...], \"visual_defects\": [...], \"overall_status\": \"ok\" or \"issues\"}.";

/// The prompt of the built-in `ui-compare` preset.
pub const UI_COMPARE_PROMPT: &'static str = "The first image is the screen before, the second the screen after. List what changed, what was added and what was removed. Answer only with JSON: {\"changed\": [...], \"added\": [...], \"removed\": [...], \"identical\": true or false}.";

/// The prompt of the built-in `error` preset.
pub const ERROR_PROMPT: &'static str = "Does this screen show an error, a crash or an empty state (error dialogs, red banners, stack traces, blank content)? Answer only with JSON: {\"error_found\": true or false, \"error_type\": string or null, \"severity\": \"none\", \"low\", \"medium\" or \"high\"}.";

/// The prompt of the built-in `element-find` preset.
pub const ELEMENT_FIND_PROMPT: &'static str = "Locate the one element described in the request on this screen. Answer only with JSON: {\"found\": true or false, \"bounds\": {\"x1\", \"y1\", \"x2\", \"y2\"} in pixels, \"approximate_center\": {\"x\", \"y\"}}.";

/// The prompt of the built-in `scroll-check` preset.
pub const SCROLL_CHECK_PROMPT: &'static str = "The first image is the screen before scrolling, the second after. Did the content scroll, in which direction, and has the end of the content been reached? Answer only with JSON: {\"scrolled\": true or false, \"direction\": \"up\", \"down\", \"left\", \"right\" or \"none\", \"reached_end\": true or false}.";

/// Names of the built-in presets.
pub open spec fn builtin_names() -> Set<Seq<char>> {
    set!["ui"@, "ui-compare"@, "error"@, "element-find"@, "scroll-check"@]
}

fn entry(name: &str, prompt: &str, format: &str, two_images: bool) -> (e: (String, Preset))
    ensures
        e.0@ == name@,
        e.1.prompt@ == prompt@,
        opt_view(e.1.format) == Some(format@),
        e.1.two_images == two_images,
{
    (
        String::from_str(name),
        Preset {
            prompt: String::from_str(prompt),
            format: Some(String::from_str(format)),
            two_images,
        },
    )
}

impl PresetStore {
    /// The built-in presets: `ui`, `ui-compare` (two images), `error`,
    /// `element-find` and `scroll-check` (two images), all answering in JSON.
    pub fn builtin() -> (s: Self)
        ensures
            s@.dom() == builtin_names(),
            forall|k: Seq<char>| #[trigger] s@.contains_key(k) ==> opt_view(s@[k].format) == Some("json"@),
            forall|k: Seq<char>| #[trigger] s@.contains_key(k) ==> s@[k].two_images == (k
                == "ui-compare"@ || k == "scroll-check"@),
            s@["ui"@].prompt@ == UI_PROMPT@,
            s@["ui-compare"@].prompt@ == UI_COMPARE_PROMPT@,
            s@["error"@].prompt@ == ERROR_PROMPT@,
            s@["element-find"@].prompt@ == ELEMENT_FIND_PROMPT@,
            s@["scroll-check"@].prompt@ == SCROLL_CHECK_PROMPT@,
    {
        let mut v: Vec<(String, Preset)> = Vec::new();
        v.push(entry(
            "ui",
            UI_PROMPT,
            "json",
            false,
        ));
        v.push(entry(
            "ui-compare",
            UI_COMPARE_PROMPT,
            "json",
            true,
        ));
        v.push(entry(
            "error",
            ERROR_PROMPT,
            "json",
            false,
        ));
        v.push(entry(
            "element-find",
            ELEMENT_FIND_PROMPT,
            "json",
            false,
        ));
        v.push(entry(
            "scroll-check",
            SCROLL_CHECK_PROMPT,
            "json",
            true,
        ));
        let s = PresetStore { presets: v };
        proof {
            let e = v@;
            assert(e.len() == 5);
            reveal_strlit("ui");
            reveal_strlit("ui-compare");
            reveal_strlit("error");
            reveal_strlit("element-find");
            reveal_strlit("scroll-check");
            assert(e.take(5) =~= e);
            assert(e.take(5).drop_last() =~= e.take(4));
            assert(e.take(4).drop_last() =~= e.take(3));
            assert(e.take(3).drop_last() =~= e.take(2));
            assert(e.take(2).drop_last() =~= e.take(1));
            assert(e.take(1).drop_last() =~= e.take(0));
            assert(e.take(0) =~= Seq::<(String, Preset)>::empty());
            assert(entries_map(e.take(0)) == Map::<Seq<char>, Preset>::empty());
            assert(entries_map(e.take(1)) == entries_map(e.take(0)).insert(e[0].0@, e[0].1));
            assert(entries_map(e.take(2)) == entries_map(e.take(1)).insert(e[1].0@, e[1].1));
            assert(entries_map(e.take(3)) == entries_map(e.take(2)).insert(e[2].0@, e[2].1));
            assert(entries_map(e.take(4)) == entries_map(e.take(3)).insert(e[3].0@, e[3].1));
            assert(entries_map(e.take(5)) == entries_map(e.take(4)).insert(e[4].0@, e[4].1));
            assert(s@.dom() =~= builtin_names());
            assert("ui"@.len() != "ui-compare"@.len());
            assert("error"@.len() != "ui-compare"@.len());
            assert("element-find"@.len() != "ui-compare"@.len());
            assert("ui"@ != "error"@ && "ui"@ != "element-find"@ && "ui"@ != "scroll-check"@);
            assert("ui-compare"@ != "error"@ && "ui-compare"@ != "element-find"@);
            assert("ui-compare"@ != "scroll-check"@ && "error"@ != "element-find"@);
            assert("error"@ != "scroll-check"@);
            assert("element-find"@[0] != "scroll-check"@[0]);
        }
        s
    }

    /// A store holding the given presets; when a name occurs twice the later
    /// entry wins, as inserting into a map does.
    pub fn from_entries(entries: Vec<(String, Preset)>) -> (s: Self)
        ensures
            s@ == entries_map(entries@),
    {
        PresetStore { presets: entries }
    }

    /// Adds `user`'s presets; a user preset replaces a preset of the same name.
    pub fn extend(&mut self, user: PresetStore)
        ensures
            final(self)@ == old(self)@.union_prefer_right(user@),
    {
        let ghost a = self.presets@;
        let ghost b = user.presets@;
        let mut u = user.presets;
        self.presets.append(&mut u);
        proof {
            lemma_entries_append(a, b);
        }
    }

    /// The preset called `name`.
    pub fn get(&self, name: &str) -> (r: Result<&Preset, VisionError>)
        ensures
            (match r {
                Ok(p) => self@.contains_key(name@) && *p == self@[name@],
                Err(e) => !self@.contains_key(name@) && (e matches VisionError::PresetNotFound(n)
                    && n@ == name@),
            }),
    {
        let key = String::from_str(name);
        let mut i: usize = self.presets.len();
        while i > 0
            invariant
                i <= self.presets@.len(),
                key@ == name@,
                forall|j: int| i <= j < self.presets@.len() ==> #[trigger] self.presets@[j].0@
                    != name@,
            decreases i,
        {
            if self.presets[i - 1].0 == key {
                proof {
                    lemma_entries_last(self.presets@, i - 1);
                }
                return Ok(&self.presets[i - 1].1);
            }
            i = i - 1;
        }
        proof {
            lemma_entries_absent(self.presets@, name@);
        }
        Err(VisionError::PresetNotFound(key))
    }

    /// The names of the presets, each once.
    pub fn names(&self) -> (r: Vec<String>)
        ensures
            r.deep_view().no_duplicates(),
            forall|k: Seq<char>| #[trigger] self@.contains_key(k) <==> r.deep_view().contains(k),
    {
        let ghost e = self.presets@;
        let n = self.presets.len();
        let mut out: Vec<String> = Vec::new();
        let mut i: usize = 0;
        while i < n
            invariant
                n == e.len(),
                e == self.presets@,
                i <= n,
                out.deep_view().no_duplicates(),
                forall|k: Seq<char>| #[trigger] out.deep_view().contains(k) <==> exists|j: int|
                    0 <= j < i && is_last_of_name(e, j) && #[trigger] e[j].0@ == k,
            decreases n - i,
        {
            let mut last = true;
            let mut j: usize = i + 1;
            while j < n
                invariant
                    n == e.len(),
                    e == self.presets@,
                    i < n,
                    i + 1 <= j <= n,
                    last == (forall|m: int| i < m < j ==> #[trigger] e[m].0@ != e[i as int].0@),
                decreases n - j,
            {
                if self.presets[j].0 == self.presets[i].0 {
                    last = false;
                }
                j = j + 1;
            }
            assert(last == is_last_of_name(e, i as int));
            let ghost old_out = out.deep_view();
            if last {
                let k = self.presets[i].0.clone();
                proof {
                    if old_out.contains(k@) {
                        let w = choose|w: int| 0 <= w < old_out.len() && old_out[w] == k@;
                        assert(old_out.contains(old_out[w]));
                        let j0 = choose|j0: int|
                            0 <= j0 < i && is_last_of_name(e, j0) && #[trigger] e[j0].0@
                                == old_out[w];
                        assert(e[i as int].0@ != e[j0].0@);
                    }
                }
                out.push(k);
                proof {
                    assert(out.deep_view() =~= old_out.push(k@));
                    assert forall|a: int, b: int|
                        0 <= a < b < out.deep_view().len() implies out.deep_view()[a]
                        != out.deep_view()[b] by {
                        if b < old_out.len() {
                            assert(old_out[a] != old_out[b]);
                        } else {
                            assert(old_out.contains(old_out[a]));
                        }
                    }
                }
            }
            proof {
                assert forall|k: Seq<char>| #[trigger]
                    out.deep_view().contains(k) <==> exists|j: int|
                        0 <= j < i + 1 && is_last_of_name(e, j) && #[trigger] e[j].0@ == k by {
                    if out.deep_view().contains(k) {
                        let w = choose|w: int| 0 <= w < out.deep_view().len() && out.deep_view()[w]
                            == k;
                        if last && w == old_out.len() {
                            assert(e[i as int].0@ == k);
                        } else {
                            assert(old_out[w] == k);
                            assert(old_out.contains(k));
                        }
                    }
                    if exists|j: int| 0 <= j < i + 1 && is_last_of_name(e, j) && #[trigger] e[j].0@
                        == k {
                        let j = choose|j: int|
                            0 <= j < i + 1 && is_last_of_name(e, j) && #[trigger] e[j].0@ == k;
                        if j == i {
                            assert(out.deep_view()[out.deep_view().len() - 1] == k);
                        } else {
                            assert(old_out.contains(k));
                            let w = choose|w: int| 0 <= w < old_out.len() && old_out[w] == k;
                            assert(out.deep_view()[w] == k);
                        }
                    }
                }
            }
            i = i + 1;
        }
        proof {
            assert forall|k: Seq<char>| #[trigger] self@.contains_key(k) <==> out.deep_view().contains(
                k,
            ) by {
                lemma_entries_dom(e, k);
                if self@.contains_key(k) {
                    let j = choose|j: int| 0 <= j < e.len() && #[trigger] e[j].0@ == k;
                    let jl = lemma_last_index(e, j);
                    assert(e[jl].0@ == k);
                }
            }
        }
        out
    }
}

/// Some entry at or after `j` carries the name of entry `j` and is the last one to.
proof fn lemma_last_index(e: Seq<(String, Preset)>, j: int) -> (l: int)
    requires
        0 <= j < e.len(),
    ensures
        j <= l < e.len(),
        e[l].0@ == e[j].0@,
        is_last_of_name(e, l),
    decreases e.len() - j,
{
    if is_last_of_name(e, j) {
        j
    } else {
        let i = choose|i: int| j < i < e.len() && #[trigger] e[i].0@ == e[j].0@;
        lemma_last_index(e, i)
    }
}


/// User presets override built-ins of the same name: after `extend`, a name the
/// user defines gives the user's preset, any other name keeps the built-in one,
/// and no built-in is removed.
pub proof fn law_user_presets_override(base: PresetStore, user: PresetStore, name: Seq<char>)
    ensures
        ({
            let merged = base@.union_prefer_right(user@);
            &&& merged.contains_key(name) <==> (base@.contains_key(name) || user@.contains_key(
                name,
            ))
            &&& user@.contains_key(name) ==> merged[name] == user@[name]
            &&& (!user@.contains_key(name) && base@.contains_key(name)) ==> merged[name]
                == base@[name]
        }),
{
}

} // verus!
