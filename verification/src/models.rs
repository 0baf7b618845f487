//! The catalogue of speech models.
use vstd::prelude::*;
use vstd::string::*;

use crate::text::{chars_of, ends_with, starts_with, text_eq, text_of};

verus! {

/// Size class of a model, or the voice activity detector.
#[derive(Debug, Clone, Copy, PartialEq, Eq, Structural)]
pub enum ModelFamily {
    Tiny,
    Base,
    Small,
    Medium,
    Large,
    Vad,
}

/// One model that can be downloaded.
#[derive(Debug, PartialEq, Eq)]
pub struct ModelEntry {
    pub filename: String,
    pub family: ModelFamily,
    /// The download size as shown to the user.
    pub size_label: String,
}

impl Clone for ModelEntry {
    fn clone(&self) -> (r: Self)
        ensures
            r == *self,
    {
        ModelEntry {
            filename: self.filename.clone(),
            family: self.family,
            size_label: self.size_label.clone(),
        }
    }
}

/// Whether the file name stands in the list.
pub open spec fn is_listed(names: Seq<String>, filename: Seq<char>) -> bool {
    exists|i: int| 0 <= i < names.len() && #[trigger] names[i]@ == filename
}

/// Whether the file name stands in the list.
pub fn listed(names: &Vec<String>, filename: &str) -> (r: bool)
    ensures
        r == is_listed(names@, filename@),
{
    let mut i: usize = 0;
    while i < names.len()
        invariant
            i <= names@.len(),
            forall|j: int| 0 <= j < i ==> #[trigger] names@[j]@ != filename@,
        decreases names@.len() - i,
    {
        if text_eq(names[i].as_str(), filename) {
            return true;
        }
        i += 1;
    }
    false
}

/// Whether a model understands English only.
pub open spec fn is_english_only(filename: Seq<char>) -> bool {
    ".en.bin"@.is_suffix_of(filename)
}

/// Whether a model understands English only.
pub fn is_english_only_model(filename: &str) -> (r: bool)
    ensures
        r == is_english_only(filename@),
{
    ends_with(filename, ".en.bin")
}

/// Whether a file is the voice activity detector, which cannot transcribe.
pub open spec fn is_vad(filename: Seq<char>) -> bool {
    "ggml-silero"@.is_prefix_of(filename)
}

/// Whether a file is the voice activity detector, which cannot transcribe.
pub fn is_vad_model_filename(filename: &str) -> (r: bool)
    ensures
        r == is_vad(filename@),
{
    starts_with(filename, "ggml-silero")
}

/// The first entry at or behind position `i` for a file.
pub open spec fn entry_from(catalog: Seq<ModelEntry>, filename: Seq<char>, i: int) -> Option<
    ModelEntry,
>
    decreases catalog.len() - i,
{
    if i < 0 || i >= catalog.len() {
        None
    } else if catalog[i].filename@ == filename {
        Some(catalog[i])
    } else {
        entry_from(catalog, filename, i + 1)
    }
}

/// The entry of the catalogue for a file.
pub fn find<'a>(catalog: &'a Vec<ModelEntry>, filename: &str) -> (r: Option<&'a ModelEntry>)
    ensures
        match r {
            Some(entry) => entry_from(catalog@, filename@, 0) == Some(*entry),
            None => entry_from(catalog@, filename@, 0) is None,
        },
        r matches Some(entry) ==> entry.filename@ == filename@,
{
    let mut i: usize = 0;
    while i < catalog.len()
        invariant
            i <= catalog@.len(),
            entry_from(catalog@, filename@, 0) == entry_from(catalog@, filename@, i as int),
        decreases catalog@.len() - i,
    {
        if text_eq(catalog[i].filename.as_str(), filename) {
            return Some(&catalog[i]);
        }
        i += 1;
    }
    None
}

/// The name of the multilingual counterpart of an English-only model: without
/// the `.en`.
pub open spec fn without_en(filename: Seq<char>) -> Seq<char> {
    filename.take(filename.len() - 7) + ".bin"@
}

/// The multilingual counterpart of an English-only model, where the catalogue
/// has it.
pub open spec fn counterpart_of(catalog: Seq<ModelEntry>, filename: Seq<char>) -> Option<
    Seq<char>,
> {
    if is_english_only(filename) && entry_from(catalog, without_en(filename), 0) is Some {
        Some(without_en(filename))
    } else {
        None
    }
}

/// The multilingual counterpart of an English-only model, where the catalogue
/// has it.
pub fn multilingual_counterpart(catalog: &Vec<ModelEntry>, filename: &str) -> (r: Option<String>)
    ensures
        match r {
            Some(name) => counterpart_of(catalog@, filename@) == Some(name@),
            None => counterpart_of(catalog@, filename@) is None,
        },
{
    if !is_english_only_model(filename) {
        return None;
    }
    proof {
        reveal_strlit(".en.bin");
    }
    let v = chars_of(filename);
    let stem = text_of(&v, 0, v.len() - 7);
    assert(stem@ =~= filename@.take(filename@.len() - 7));
    let name = stem.concat(".bin");
    if find(catalog, name.as_str()).is_some() {
        Some(name)
    } else {
        None
    }
}

/// The first file at or behind position `i` that can transcribe.
pub open spec fn usable_from(installed: Seq<String>, i: int) -> Option<Seq<char>>
    decreases installed.len() - i,
{
    if i < 0 || i >= installed.len() {
        None
    } else if !is_vad(installed[i]@) {
        Some(installed[i]@)
    } else {
        usable_from(installed, i + 1)
    }
}

/// The first entry at or behind position `i` of a size that is installed and
/// can transcribe.
pub open spec fn pick_from(
    catalog: Seq<ModelEntry>,
    installed: Seq<String>,
    family: ModelFamily,
    i: int,
) -> Option<Seq<char>>
    decreases catalog.len() - i,
{
    if i < 0 || i >= catalog.len() {
        None
    } else if catalog[i].family == family && is_listed(installed, catalog[i].filename@) && !is_vad(
        catalog[i].filename@,
    ) {
        Some(catalog[i].filename@)
    } else {
        pick_from(catalog, installed, family, i + 1)
    }
}

/// The sizes in the order in which they are tried: the small ones load fast.
pub open spec fn family_order() -> Seq<ModelFamily> {
    seq![
        ModelFamily::Tiny,
        ModelFamily::Base,
        ModelFamily::Small,
        ModelFamily::Medium,
        ModelFamily::Large,
    ]
}

/// The model of the first size at or behind position `k` of the order that is
/// installed.
pub open spec fn pick_by_size(catalog: Seq<ModelEntry>, installed: Seq<String>, k: int) -> Option<
    Seq<char>,
>
    decreases family_order().len() - k,
{
    if k < 0 || k >= family_order().len() {
        None
    } else {
        match pick_from(catalog, installed, family_order()[k], 0) {
            Some(name) => Some(name),
            None => pick_by_size(catalog, installed, k + 1),
        }
    }
}

/// The model that stands in for one that is of no use: the base model, or else
/// the smallest of the catalogue, or else any that can transcribe.
pub open spec fn fallback_of(catalog: Seq<ModelEntry>, installed: Seq<String>) -> Option<
    Seq<char>,
> {
    if is_listed(installed, "ggml-base.bin"@) {
        Some("ggml-base.bin"@)
    } else {
        match pick_by_size(catalog, installed, 0) {
            Some(name) => Some(name),
            None => usable_from(installed, 0),
        }
    }
}

fn pick(catalog: &Vec<ModelEntry>, installed: &Vec<String>, family: ModelFamily) -> (r: Option<
    String,
>)
    ensures
        match r {
            Some(name) => pick_from(catalog@, installed@, family, 0) == Some(name@),
            None => pick_from(catalog@, installed@, family, 0) is None,
        },
{
    let mut i: usize = 0;
    while i < catalog.len()
        invariant
            i <= catalog@.len(),
            pick_from(catalog@, installed@, family, 0) == pick_from(
                catalog@,
                installed@,
                family,
                i as int,
            ),
        decreases catalog@.len() - i,
    {
        let entry = &catalog[i];
        if entry.family == family && listed(installed, entry.filename.as_str())
            && !is_vad_model_filename(entry.filename.as_str()) {
            return Some(entry.filename.clone());
        }
        i += 1;
    }
    None
}

fn first_usable(installed: &Vec<String>) -> (r: Option<String>)
    ensures
        match r {
            Some(name) => usable_from(installed@, 0) == Some(name@),
            None => usable_from(installed@, 0) is None,
        },
{
    let mut i: usize = 0;
    while i < installed.len()
        invariant
            i <= installed@.len(),
            usable_from(installed@, 0) == usable_from(installed@, i as int),
        decreases installed@.len() - i,
    {
        if !is_vad_model_filename(installed[i].as_str()) {
            return Some(installed[i].clone());
        }
        i += 1;
    }
    None
}

/// The model that stands in for one that is of no use, given the catalogue and
/// the model files that are there.
pub fn whisper_fallback_filename(catalog: &Vec<ModelEntry>, installed: &Vec<String>) -> (r: Option<
    String,
>)
    ensures
        match r {
            Some(name) => fallback_of(catalog@, installed@) == Some(name@),
            None => fallback_of(catalog@, installed@) is None,
        },
{
    if listed(installed, "ggml-base.bin") {
        return Some("ggml-base.bin".to_owned());
    }
    proof {
        reveal_with_fuel(pick_by_size, 6);
    }
    if let Some(name) = pick(catalog, installed, ModelFamily::Tiny) {
        return Some(name);
    }
    if let Some(name) = pick(catalog, installed, ModelFamily::Base) {
        return Some(name);
    }
    if let Some(name) = pick(catalog, installed, ModelFamily::Small) {
        return Some(name);
    }
    if let Some(name) = pick(catalog, installed, ModelFamily::Medium) {
        return Some(name);
    }
    if let Some(name) = pick(catalog, installed, ModelFamily::Large) {
        return Some(name);
    }
    first_usable(installed)
}

/// Whether a file name has the extension `bin`.
pub open spec fn is_bin(name: Seq<char>) -> bool {
    name.len() > 4 && ".bin"@.is_suffix_of(name)
}

/// Whether some file name has the extension `bin`.
pub open spec fn has_bin(names: Seq<String>) -> bool {
    exists|i: int| 0 <= i < names.len() && is_bin(#[trigger] names[i]@)
}

/// Whether there is no model at all, given the files of the models folder, or
/// `None` where there is no such folder.
pub fn has_no_bin_files(files: Option<&Vec<String>>) -> (r: bool)
    ensures
        r == (match files {
            None => true,
            Some(names) => !has_bin(names@),
        }),
{
    let names = match files {
        Some(names) => names,
        None => {
            return true;
        },
    };
    let mut i: usize = 0;
    while i < names.len()
        invariant
            i <= names@.len(),
            files == Some(names),
            forall|j: int| 0 <= j < i ==> !is_bin(#[trigger] names@[j]@),
        decreases names@.len() - i,
    {
        let n: usize = chars_of(names[i].as_str()).len();
        if n > 4 && ends_with(names[i].as_str(), ".bin") {
            assert(is_bin(names@[i as int]@));
            return false;
        }
        i += 1;
    }
    true
}

// ---------------------------------------------------------------------------
// Laws
// ---------------------------------------------------------------------------

proof fn lemma_pick(catalog: Seq<ModelEntry>, installed: Seq<String>, family: ModelFamily, i: int)
    ensures
        pick_from(catalog, installed, family, i) matches Some(name) ==> is_listed(installed, name)
            && !is_vad(name),
    decreases catalog.len() - i,
{
    if 0 <= i < catalog.len() {
        lemma_pick(catalog, installed, family, i + 1);
    }
}

proof fn lemma_pick_by_size(catalog: Seq<ModelEntry>, installed: Seq<String>, k: int)
    ensures
        pick_by_size(catalog, installed, k) matches Some(name) ==> is_listed(installed, name)
            && !is_vad(name),
    decreases family_order().len() - k,
{
    if 0 <= k < family_order().len() {
        lemma_pick(catalog, installed, family_order()[k], 0);
        lemma_pick_by_size(catalog, installed, k + 1);
    }
}

proof fn lemma_usable(installed: Seq<String>, i: int)
    ensures
        usable_from(installed, i) matches Some(name) ==> is_listed(installed, name) && !is_vad(
            name,
        ),
        usable_from(installed, i) is None ==> forall|j: int|
            0 <= i <= j < installed.len() ==> is_vad(#[trigger] installed[j]@),
    decreases installed.len() - i,
{
    if 0 <= i < installed.len() {
        lemma_usable(installed, i + 1);
    }
}

/// A model that stands in is installed and is never the voice activity
/// detector.
pub proof fn a_fallback_can_transcribe(catalog: Seq<ModelEntry>, installed: Seq<String>)
    ensures
        fallback_of(catalog, installed) matches Some(name) ==> is_listed(installed, name)
            && !is_vad(name),
{
    reveal_strlit("ggml-base.bin");
    reveal_strlit("ggml-silero");
    lemma_pick_by_size(catalog, installed, 0);
    lemma_usable(installed, 0);
    let base = "ggml-base.bin"@;
    let vad = "ggml-silero"@;
    assert(base[5] == 'b' && vad[5] == 's');
    assert(vad.is_prefix_of(base) ==> base.take(vad.len() as int)[5] == vad[5]);
}

/// There is a model to stand in exactly where some file can transcribe.
pub proof fn a_fallback_is_found_if_there_is_one(catalog: Seq<ModelEntry>, installed: Seq<String>)
    ensures
        fallback_of(catalog, installed) is Some <==> exists|i: int|
            0 <= i < installed.len() && !is_vad(#[trigger] installed[i]@),
{
    a_fallback_can_transcribe(catalog, installed);
    lemma_usable(installed, 0);
    if fallback_of(catalog, installed) is Some {
        let name = fallback_of(catalog, installed)->Some_0;
        let i = choose|i: int| 0 <= i < installed.len() && #[trigger] installed[i]@ == name;
        assert(!is_vad(installed[i]@));
    }
}

/// The counterpart of an English-only model is in the catalogue.
pub proof fn a_counterpart_is_catalogued(catalog: Seq<ModelEntry>, filename: Seq<char>)
    ensures
        counterpart_of(catalog, filename) matches Some(name) ==> (entry_from(
            catalog,
            name,
            0,
        ) is Some),
{
}

/// How large the models of a family are, counted from the smallest; the voice
/// activity detector is no model to transcribe with.
pub open spec fn size_rank(family: ModelFamily) -> Option<nat> {
    match family {
        ModelFamily::Tiny => Some(0),
        ModelFamily::Base => Some(1),
        ModelFamily::Small => Some(2),
        ModelFamily::Medium => Some(3),
        ModelFamily::Large => Some(4),
        ModelFamily::Vad => None,
    }
}

/// Whether entry `i` of the catalogue is a model that is installed and can
/// transcribe.
pub open spec fn can_stand_in(catalog: Seq<ModelEntry>, installed: Seq<String>, i: int) -> bool {
    &&& 0 <= i < catalog.len()
    &&& size_rank(catalog[i].family) is Some
    &&& is_listed(installed, catalog[i].filename@)
    &&& !is_vad(catalog[i].filename@)
}

/// Whether entry `i` can stand in and none that can is smaller, or of the same
/// family and further up in the catalogue.
pub open spec fn is_smallest(catalog: Seq<ModelEntry>, installed: Seq<String>, i: int) -> bool {
    &&& can_stand_in(catalog, installed, i)
    &&& forall|j: int| #[trigger]
        can_stand_in(catalog, installed, j) ==> {
            let mine = size_rank(catalog[i].family)->Some_0;
            let other = size_rank(catalog[j].family)->Some_0;
            mine < other || (mine == other && i <= j)
        }
}

proof fn lemma_first_of_family(
    catalog: Seq<ModelEntry>,
    installed: Seq<String>,
    family: ModelFamily,
    from: int,
)
    requires
        0 <= from,
        size_rank(family) is Some,
    ensures
        match pick_from(catalog, installed, family, from) {
            Some(name) => exists|i: int|
                from <= i && #[trigger] can_stand_in(catalog, installed, i) && catalog[i].family
                    == family && catalog[i].filename@ == name && forall|j: int|
                    from <= j && #[trigger] can_stand_in(catalog, installed, j)
                        && catalog[j].family == family ==> i <= j,
            None => forall|j: int|
                from <= j && #[trigger] can_stand_in(catalog, installed, j)
                    ==> catalog[j].family != family,
        },
    decreases catalog.len() - from,
{
    if from < catalog.len() {
        if catalog[from].family == family && is_listed(installed, catalog[from].filename@)
            && !is_vad(catalog[from].filename@) {
            assert(can_stand_in(catalog, installed, from));
        } else {
            lemma_first_of_family(catalog, installed, family, from + 1);
            assert(can_stand_in(catalog, installed, from) ==> catalog[from].family != family);
        }
    }
}

/// Where the base model is not installed but some model of the catalogue is,
/// the smallest of them stands in: no smaller one is passed over, and of those
/// of one family the first of the catalogue is taken.
#[verifier::rlimit(40)]
pub proof fn no_smaller_model_is_passed_over(catalog: Seq<ModelEntry>, installed: Seq<String>)
    requires
        !is_listed(installed, "ggml-base.bin"@),
        exists|i: int| #[trigger] can_stand_in(catalog, installed, i),
    ensures
        exists|i: int| #[trigger]
            is_smallest(catalog, installed, i) && fallback_of(catalog, installed) == Some(
                catalog[i].filename@,
            ),
{
    reveal_with_fuel(pick_by_size, 6);
    lemma_first_of_family(catalog, installed, ModelFamily::Tiny, 0);
    lemma_first_of_family(catalog, installed, ModelFamily::Base, 0);
    lemma_first_of_family(catalog, installed, ModelFamily::Small, 0);
    lemma_first_of_family(catalog, installed, ModelFamily::Medium, 0);
    lemma_first_of_family(catalog, installed, ModelFamily::Large, 0);
    let some = choose|i: int| #[trigger] can_stand_in(catalog, installed, i);
    assert(catalog[some].family != ModelFamily::Vad);
    let name = fallback_of(catalog, installed)->Some_0;
    let family = if pick_from(catalog, installed, ModelFamily::Tiny, 0) is Some {
        ModelFamily::Tiny
    } else if pick_from(catalog, installed, ModelFamily::Base, 0) is Some {
        ModelFamily::Base
    } else if pick_from(catalog, installed, ModelFamily::Small, 0) is Some {
        ModelFamily::Small
    } else if pick_from(catalog, installed, ModelFamily::Medium, 0) is Some {
        ModelFamily::Medium
    } else {
        ModelFamily::Large
    };
    assert(pick_from(catalog, installed, family, 0) == Some(name));
    let i = choose|i: int|
        0 <= i && #[trigger] can_stand_in(catalog, installed, i) && catalog[i].family == family
            && catalog[i].filename@ == name && forall|j: int|
            0 <= j && #[trigger] can_stand_in(catalog, installed, j) && catalog[j].family
                == family ==> i <= j;
    assert(is_smallest(catalog, installed, i));
}

/// The base model stands in wherever it is installed.
pub proof fn the_base_model_comes_first(catalog: Seq<ModelEntry>, installed: Seq<String>)
    requires
        is_listed(installed, "ggml-base.bin"@),
    ensures
        fallback_of(catalog, installed) == Some("ggml-base.bin"@),
{
}

proof fn lemma_first_usable(installed: Seq<String>, from: int)
    requires
        0 <= from,
    ensures
        usable_from(installed, from) matches Some(name) ==> exists|i: int|
            from <= i < installed.len() && #[trigger] installed[i]@ == name && !is_vad(name)
                && forall|j: int| from <= j < i ==> is_vad(#[trigger] installed[j]@),
    decreases installed.len() - from,
{
    if from < installed.len() {
        if is_vad(installed[from]@) {
            lemma_first_usable(installed, from + 1);
        } else {
            assert(installed[from]@ == usable_from(installed, from)->Some_0);
        }
    }
}

/// Where no model of the catalogue is installed, the first file stands in that
/// is not the voice activity detector.
pub proof fn an_unknown_model_stands_in_last(catalog: Seq<ModelEntry>, installed: Seq<String>)
    requires
        !is_listed(installed, "ggml-base.bin"@),
        forall|i: int| !#[trigger] can_stand_in(catalog, installed, i),
    ensures
        fallback_of(catalog, installed) matches Some(name) ==> exists|i: int|
            0 <= i < installed.len() && #[trigger] installed[i]@ == name && !is_vad(name)
                && forall|j: int| 0 <= j < i ==> is_vad(#[trigger] installed[j]@),
{
    reveal_with_fuel(pick_by_size, 6);
    lemma_first_of_family(catalog, installed, ModelFamily::Tiny, 0);
    lemma_first_of_family(catalog, installed, ModelFamily::Base, 0);
    lemma_first_of_family(catalog, installed, ModelFamily::Small, 0);
    lemma_first_of_family(catalog, installed, ModelFamily::Medium, 0);
    lemma_first_of_family(catalog, installed, ModelFamily::Large, 0);
    lemma_first_usable(installed, 0);
}

/// The files of the voice activity detector are those whose names begin with
/// `ggml-silero`.
pub proof fn the_detector_is_known_by_its_name(name: Seq<char>)
    ensures
        is_vad(name) <==> name.len() >= 11 && name.take(11) == seq![
            'g',
            'g',
            'm',
            'l',
            '-',
            's',
            'i',
            'l',
            'e',
            'r',
            'o',
        ],
{
    reveal_strlit("ggml-silero");
    assert("ggml-silero"@ =~= seq!['g', 'g', 'm', 'l', '-', 's', 'i', 'l', 'e', 'r', 'o']);
    if is_vad(name) {
        assert(name.take(11) =~= "ggml-silero"@);
    } else if name.len() >= 11 {
        assert(name.take(11) == name.subrange(0, 11));
    }
}

/// A name that is put together from a stem and `.en.bin` is that of an
/// English-only model, and its counterpart has the same stem before `.bin`.
pub proof fn a_counterpart_keeps_the_stem(catalog: Seq<ModelEntry>, stem: Seq<char>)
    ensures
        is_english_only(stem + ".en.bin"@),
        match counterpart_of(catalog, stem + ".en.bin"@) {
            Some(name) => name == stem + ".bin"@ && exists|i: int|
                0 <= i < catalog.len() && #[trigger] catalog[i].filename@ == name,
            None => forall|i: int|
                0 <= i < catalog.len() ==> #[trigger] catalog[i].filename@ != stem + ".bin"@,
        },
{
    reveal_strlit(".en.bin");
    let name = stem + ".en.bin"@;
    assert(name.subrange(name.len() - 7, name.len() as int) =~= ".en.bin"@);
    assert(name.take(name.len() - 7) =~= stem);
    an_entry_is_the_first_for_its_file(catalog, stem + ".bin"@, 0);
}

/// A model of another name has no counterpart.
pub proof fn only_english_models_have_a_counterpart(catalog: Seq<ModelEntry>, filename: Seq<char>)
    requires
        forall|stem: Seq<char>| filename != #[trigger] (stem + ".en.bin"@),
    ensures
        counterpart_of(catalog, filename) is None,
{
    reveal_strlit(".en.bin");
    if is_english_only(filename) {
        let stem = filename.take(filename.len() - 7);
        assert(filename =~= stem + ".en.bin"@);
    }
}

/// The entry for a file is the first of the catalogue with its name, and there
/// is one wherever the catalogue has the name.
pub proof fn an_entry_is_the_first_for_its_file(
    catalog: Seq<ModelEntry>,
    filename: Seq<char>,
    from: int,
)
    requires
        0 <= from,
    ensures
        match entry_from(catalog, filename, from) {
            Some(entry) => exists|i: int|
                from <= i < catalog.len() && #[trigger] catalog[i] == entry
                    && catalog[i].filename@ == filename && forall|j: int|
                    from <= j < i ==> #[trigger] catalog[j].filename@ != filename,
            None => forall|j: int|
                from <= j < catalog.len() ==> #[trigger] catalog[j].filename@ != filename,
        },
    decreases catalog.len() - from,
{
    if from < catalog.len() {
        if catalog[from].filename@ == filename {
            assert(catalog[from] == entry_from(catalog, filename, from)->Some_0);
        } else {
            an_entry_is_the_first_for_its_file(catalog, filename, from + 1);
        }
    }
}

/// A file is a model by its name if something stands before a `.bin` at its
/// end.
pub proof fn a_model_file_ends_in_bin(name: Seq<char>)
    ensures
        is_bin(name) <==> {
            let n = name.len();
            n > 4 && name[n - 4] == '.' && name[n - 3] == 'b' && name[n - 2] == 'i' && name[n - 1]
                == 'n'
        },
{
    reveal_strlit(".bin");
    if name.len() > 4 {
        let ending = name.subrange(name.len() - 4, name.len() as int);
        assert(ending =~= ".bin"@ <==> ending[0] == '.' && ending[1] == 'b' && ending[2] == 'i'
            && ending[3] == 'n');
    }
}

/// A folder holds a model from the first model file that comes in, whatever
/// else is in it.
pub proof fn a_model_file_is_enough(names: Seq<String>, name: String)
    ensures
        has_bin(names.push(name)) == (has_bin(names) || is_bin(name@)),
{
    let more = names.push(name);
    if has_bin(names) {
        let i = choose|i: int| 0 <= i < names.len() && is_bin(#[trigger] names[i]@);
        assert(is_bin(more[i]@));
    }
    if is_bin(name@) {
        assert(is_bin(more[names.len() as int]@));
    }
    if has_bin(more) {
        let i = choose|i: int| 0 <= i < more.len() && is_bin(#[trigger] more[i]@);
        if i < names.len() {
            assert(is_bin(names[i]@));
        }
    }
}

/// A name is listed once it was added, whatever else is, and adding another does
/// not change that.
pub proof fn an_added_name_is_listed(names: Seq<String>, name: String, filename: Seq<char>)
    ensures
        !is_listed(Seq::empty(), filename),
        is_listed(names.push(name), filename) == (is_listed(names, filename) || name@ == filename),
{
    let more = names.push(name);
    if is_listed(names, filename) {
        let i = choose|i: int| 0 <= i < names.len() && #[trigger] names[i]@ == filename;
        assert(more[i]@ == filename);
    }
    if name@ == filename {
        assert(more[names.len() as int]@ == filename);
    }
    if is_listed(more, filename) {
        let i = choose|i: int| 0 <= i < more.len() && #[trigger] more[i]@ == filename;
        if i < names.len() {
            assert(names[i]@ == filename);
        }
    }
}

} // verus!
