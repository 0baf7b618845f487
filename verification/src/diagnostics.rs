//! The table of the preferences and the report on the system.
use vstd::prelude::*;
use vstd::string::*;

use crate::config::{Config, PromptPreset, Theme, UiLanguage};
use crate::text::{
    a_numeral_is_read_back, chars_of, contains_text, decimal, decimal_text, number_of, stands_at,
    text_of, NumberFault,
};

verus! {

/// The width of the right column, in characters.
pub const VALUE_WIDTH: usize = 29;

/// `n` spaces.
pub open spec fn spaces(n: nat) -> Seq<char> {
    Seq::new(n, |i: int| ' ')
}

/// `s` and as many spaces as fill the column; a longer text stands as it is.
pub open spec fn filled(s: Seq<char>) -> Seq<char> {
    if s.len() < VALUE_WIDTH {
        s + spaces((VALUE_WIDTH - s.len()) as nat)
    } else {
        s
    }
}

/// A row of the table.
pub open spec fn table_row(label: Seq<char>, value: Seq<char>) -> Seq<char> {
    "│ "@ + label + " │ "@ + filled(value) + " │\n"@
}

/// The bytes of a character in UTF-8.
pub open spec fn byte_len(c: char) -> nat {
    let n = c as u32;
    if n < 0x80 {
        1
    } else if n < 0x800 {
        2
    } else if n < 0x1_0000 {
        3
    } else {
        4
    }
}

/// The bytes of the characters at and behind position `i`.
pub open spec fn bytes_from(s: Seq<char>, i: int) -> nat
    decreases s.len() - i,
{
    if i < 0 || i >= s.len() {
        0
    } else {
        byte_len(s[i]) + bytes_from(s, i + 1)
    }
}

/// Whether the last 26 bytes of `s` begin with a character.
pub open spec fn has_short_tail(s: Seq<char>) -> bool {
    exists|i: int| 0 <= i <= s.len() && #[trigger] bytes_from(s, i) == 26
}

/// A path that fits the column: where it has more than 29 bytes, the last 26
/// behind three points.
pub open spec fn shortened(s: Seq<char>) -> Seq<char> {
    if bytes_from(s, 0) > 29 {
        let i = choose|i: int| 0 <= i <= s.len() && #[trigger] bytes_from(s, i) == 26;
        "..."@ + s.skip(i)
    } else {
        s
    }
}

fn bytes_of(c: char) -> (r: usize)
    ensures
        r == byte_len(c),
        1 <= r <= 4,
{
    let n: u32 = c as u32;
    if n < 0x80 {
        1
    } else if n < 0x800 {
        2
    } else if n < 0x1_0000 {
        3
    } else {
        4
    }
}

proof fn lemma_bytes_decrease(s: Seq<char>, i: int, j: int)
    requires
        0 <= i <= j <= s.len(),
    ensures
        bytes_from(s, i) >= bytes_from(s, j) + (j - i),
    decreases j - i,
{
    if i < j {
        lemma_bytes_decrease(s, i + 1, j);
    }
}

/// Whether a path can be shortened so that it fits the column, or need not be.
pub fn can_shorten(path: &str) -> (r: bool)
    ensures
        r == (bytes_from(path@, 0) > 29 ==> has_short_tail(path@)),
{
    let v = chars_of(path);
    let n: usize = v.len();
    let mut i: usize = n;
    let mut bytes: usize = 0;
    let mut found = false;
    while i > 0 && bytes < 30
        invariant
            i <= n,
            n == v@.len(),
            v@ == path@,
            bytes == bytes_from(v@, i as int),
            bytes < 34,
            found == exists|t: int| i <= t <= n && #[trigger] bytes_from(v@, t) == 26,
        decreases i,
    {
        let ghost had = found;
        i -= 1;
        bytes += bytes_of(v[i]);
        if bytes == 26 {
            found = true;
        }
        proof {
            assert(bytes == bytes_from(v@, i as int));
            if had {
                let t = choose|t: int| i + 1 <= t <= n && #[trigger] bytes_from(v@, t) == 26;
                assert(i <= t <= n && bytes_from(v@, t) == 26);
            }
        }
    }
    proof {
        if bytes > 29 {
            lemma_bytes_decrease(v@, 0, i as int);
            if has_short_tail(path@) {
                let t = choose|t: int| 0 <= t <= n && #[trigger] bytes_from(v@, t) == 26;
                if t < i {
                    lemma_bytes_decrease(v@, t, i as int);
                }
            }
        }
    }
    bytes <= 29 || found
}

/// Shortens a path so that it fits the column.
pub fn shorten(path: &str) -> (r: String)
    requires
        bytes_from(path@, 0) > 29 ==> has_short_tail(path@),
    ensures
        r@ == shortened(path@),
{
    let v = chars_of(path);
    let n: usize = v.len();
    let mut i: usize = n;
    let mut bytes: usize = 0;
    while i > 0 && bytes < 30
        invariant
            i <= n,
            n == v@.len(),
            v@ == path@,
            bytes == bytes_from(v@, i as int),
            bytes < 34,
        decreases i,
    {
        i -= 1;
        bytes += bytes_of(v[i]);
    }
    if bytes <= 29 {
        return path.to_owned();
    }
    proof {
        lemma_bytes_decrease(v@, 0, i as int);
    }
    let mut k: usize = i;
    let mut rest: usize = bytes;
    let ghost tail = choose|t: int| 0 <= t <= path@.len() && #[trigger] bytes_from(path@, t) == 26;
    proof {
        if tail < k {
            lemma_bytes_decrease(v@, tail, k as int);
        }
    }
    while k < n && rest > 26
        invariant
            k <= tail <= n,
            n == v@.len(),
            v@ == path@,
            rest == bytes_from(v@, k as int),
            rest >= 26,
            bytes_from(v@, tail) == 26,
        decreases n - k,
    {
        proof {
            lemma_bytes_decrease(v@, k as int + 1, tail);
        }
        rest -= bytes_of(v[k]);
        k += 1;
    }
    proof {
        if k < tail {
            lemma_bytes_decrease(v@, k as int, tail);
        }
    }
    let end = text_of(&v, k, n);
    assert(end@ =~= path@.skip(k as int));
    "...".to_owned().concat(end.as_str())
}

fn push_row(out: &mut String, label: &str, value: &str)
    ensures
        final(out)@ == old(out)@ + table_row(label@, value@),
{
    let ghost before = out@;
    out.append("│ ");
    out.append(label);
    out.append(" │ ");
    out.append(value);
    let mut width: usize = chars_of(value).len();
    let ghost start = out@;
    let ghost missing = filled(value@).len() - value@.len();
    assert(start =~= start + spaces(0));
    while width < VALUE_WIDTH
        invariant
            width >= value@.len(),
            width - value@.len() <= missing,
            value@.len() < VALUE_WIDTH ==> width <= VALUE_WIDTH,
            missing == (if value@.len() < VALUE_WIDTH {
                VALUE_WIDTH - value@.len()
            } else {
                0
            }),
            out@ == start + spaces((width - value@.len()) as nat),
        decreases VALUE_WIDTH - width,
    {
        out.append(" ");
        width += 1;
        proof {
            reveal_strlit(" ");
        }
        assert(out@ =~= start + spaces((width - value@.len()) as nat));
    }
    out.append(" │\n");
    assert(width - value@.len() == missing);
    assert(out@ =~= before + table_row(label@, value@));
}

/// The word for the use of the graphics processor.
pub open spec fn yes_no(b: bool) -> Seq<char> {
    if b {
        "Sí"@
    } else {
        "No"@
    }
}

/// The number of threads, or the word for the automatic choice.
pub open spec fn threads_text(n: Option<u16>) -> Seq<char> {
    match n {
        Some(n) => decimal(n as nat),
        None => "Auto"@,
    }
}

/// The name of a theme.
pub open spec fn theme_name(theme: Theme) -> Seq<char> {
    match theme {
        Theme::Dark => "dark"@,
        Theme::Light => "light"@,
        Theme::System => "system"@,
    }
}

/// The name of a language of the menus.
pub open spec fn ui_language_name(language: UiLanguage) -> Seq<char> {
    match language {
        UiLanguage::Es => "es"@,
        UiLanguage::En => "en"@,
        UiLanguage::Bilingual => "bilingual"@,
    }
}

/// The name of a prompt.
pub open spec fn prompt_name(preset: PromptPreset) -> Seq<char> {
    match preset {
        PromptPreset::BilingualEsEn => "Bilingüe ES+EN"@,
        PromptPreset::SpanishOnly => "Solo español"@,
        PromptPreset::EnglishOnly => "Solo inglés"@,
        PromptPreset::Custom => "Personalizado"@,
    }
}

/// The table of the preferences.
pub open spec fn config_table(config: Config, models_dir: Seq<char>) -> Seq<char> {
    "┌──────────────────────────────────────────────────────────┐\n"@
        + "│                  oido 2.0 Configuración                  │\n"@
        + "├──────────────────────────┬───────────────────────────────┤\n"@
        + table_row("Tecla de Activación     "@, config.hotkey@)
        + table_row("Modelo Whisper          "@, config.model@)
        + table_row("Idioma de UI            "@, config.language_ui@)
        + table_row("Usar GPU                "@, yes_no(config.use_gpu))
        + table_row("Hilos Whisper           "@, threads_text(config.n_threads))
        + table_row("Tema                    "@, theme_name(config.theme))
        + table_row("Idioma del Menú         "@, ui_language_name(config.ui_language))
        + table_row("System Prompt           "@, prompt_name(config.prompt_preset))
        + "├──────────────────────────┼───────────────────────────────┤\n"@
        + table_row("Directorio de Modelos   "@, shortened(models_dir))
        + "└──────────────────────────┴───────────────────────────────┘"@
}

/// Writes the table of the preferences.
pub fn format_config_table(config: &Config, models_dir: &str) -> (r: String)
    requires
        bytes_from(models_dir@, 0) > 29 ==> has_short_tail(models_dir@),
    ensures
        r@ == config_table(*config, models_dir@),
{
    let mut s = "┌──────────────────────────────────────────────────────────┐\n".to_owned();
    s.append("│                  oido 2.0 Configuración                  │\n");
    s.append("├──────────────────────────┬───────────────────────────────┤\n");
    push_row(&mut s, "Tecla de Activación     ", config.hotkey.as_str());
    push_row(&mut s, "Modelo Whisper          ", config.model.as_str());
    push_row(&mut s, "Idioma de UI            ", config.language_ui.as_str());
    push_row(
        &mut s,
        "Usar GPU                ",
        if config.use_gpu {
            "Sí"
        } else {
            "No"
        },
    );
    let threads = match config.n_threads {
        Some(n) => decimal_text(n as u64),
        None => "Auto".to_owned(),
    };
    push_row(&mut s, "Hilos Whisper           ", threads.as_str());
    push_row(
        &mut s,
        "Tema                    ",
        match config.theme {
            Theme::Dark => "dark",
            Theme::Light => "light",
            Theme::System => "system",
        },
    );
    push_row(
        &mut s,
        "Idioma del Menú         ",
        match config.ui_language {
            UiLanguage::Es => "es",
            UiLanguage::En => "en",
            UiLanguage::Bilingual => "bilingual",
        },
    );
    push_row(
        &mut s,
        "System Prompt           ",
        match config.prompt_preset {
            PromptPreset::BilingualEsEn => "Bilingüe ES+EN",
            PromptPreset::SpanishOnly => "Solo español",
            PromptPreset::EnglishOnly => "Solo inglés",
            PromptPreset::Custom => "Personalizado",
        },
    );
    s.append("├──────────────────────────┼───────────────────────────────┤\n");
    push_row(&mut s, "Directorio de Modelos   ", shorten(models_dir).as_str());
    s.append("└──────────────────────────┴───────────────────────────────┘");
    s
}

/// What the report on the system is about.
#[derive(Debug, PartialEq, Eq)]
pub struct SystemFacts {
    pub version: String,
    pub config_path: String,
    pub config_exists: bool,
    pub models_dir: String,
    pub model_path: String,
    pub model_exists: bool,
    pub gpu_support: bool,
}

/// The report on the system.
pub open spec fn report_of(facts: SystemFacts) -> Seq<char> {
    "\n--- Diagnóstico de Sistema ---\nVersión oido: "@ + facts.version@
        + "\nArchivo de Configuración: "@ + facts.config_path@ + " ("@ + (if facts.config_exists {
        "Presente"@
    } else {
        "No encontrado, usando defaults"@
    }) + ")\nDirectorio de Modelos: "@ + facts.models_dir@ + "\nModelo Whisper: "@
        + facts.model_path@ + " ("@ + (if facts.model_exists {
        "Descargado"@
    } else {
        "Falta / No encontrado"@
    }) + ")\nGPU Compilada: "@ + yes_no(facts.gpu_support)
}

/// Writes the report on the system.
pub fn system_report(facts: &SystemFacts) -> (r: String)
    ensures
        r@ == report_of(*facts),
{
    let mut s = "\n--- Diagnóstico de Sistema ---\nVersión oido: ".to_owned();
    s.append(facts.version.as_str());
    s.append("\nArchivo de Configuración: ");
    s.append(facts.config_path.as_str());
    s.append(" (");
    s.append(
        if facts.config_exists {
            "Presente"
        } else {
            "No encontrado, usando defaults"
        },
    );
    s.append(")\nDirectorio de Modelos: ");
    s.append(facts.models_dir.as_str());
    s.append("\nModelo Whisper: ");
    s.append(facts.model_path.as_str());
    s.append(" (");
    s.append(
        if facts.model_exists {
            "Descargado"
        } else {
            "Falta / No encontrado"
        },
    );
    s.append(")\nGPU Compilada: ");
    s.append(
        if facts.gpu_support {
            "Sí"
        } else {
            "No"
        },
    );
    s
}

proof fn lemma_tail_is_short(s: Seq<char>, i: int)
    requires
        0 <= i <= s.len(),
    ensures
        s.len() - i <= bytes_from(s, i),
    decreases s.len() - i,
{
    if i < s.len() {
        lemma_tail_is_short(s, i + 1);
    }
}

/// A path that is written into the table fits its column.
pub proof fn a_shortened_path_fits(path: Seq<char>)
    requires
        bytes_from(path, 0) > 29 ==> has_short_tail(path),
    ensures
        shortened(path).len() <= VALUE_WIDTH,
{
    reveal_strlit("...");
    lemma_tail_is_short(path, 0);
    if bytes_from(path, 0) > 29 {
        let i = choose|i: int| 0 <= i <= path.len() && #[trigger] bytes_from(path, i) == 26;
        lemma_tail_is_short(path, i);
    }
}

// ---------------------------------------------------------------------------
// Laws
// ---------------------------------------------------------------------------

/// A value takes 29 characters of its column, with blanks behind it, and a
/// longer one as many as it has.
pub proof fn a_value_fills_its_column(s: Seq<char>, i: int)
    ensures
        s.len() <= 29 ==> filled(s).len() == 29,
        s.len() > 29 ==> filled(s) == s,
        0 <= i < s.len() ==> filled(s)[i] == s[i],
        s.len() <= i < filled(s).len() ==> filled(s)[i] == ' ',
{
}

/// The rows of the table are equally long wherever the values fit the column.
pub proof fn rows_are_equally_long(
    label: Seq<char>,
    other: Seq<char>,
    value: Seq<char>,
    other_value: Seq<char>,
)
    requires
        label.len() == other.len(),
        value.len() <= 29,
        other_value.len() <= 29,
    ensures
        table_row(label, value).len() == table_row(other, other_value).len(),
        table_row(label, value).len() == label.len() + 37,
{
    reveal_strlit("│ ");
    reveal_strlit(" │ ");
    reveal_strlit(" │\n");
}

/// The words for the preferences tell all their values apart.
pub proof fn words_tell_the_values_apart(
    a: bool,
    theme: Theme,
    language: UiLanguage,
    preset: PromptPreset,
)
    ensures
        a <==> yes_no(a) == "Sí"@,
        !a <==> yes_no(a) == "No"@,
        theme == Theme::Dark ==> theme_name(theme) == "dark"@,
        theme == Theme::Light ==> theme_name(theme) == "light"@,
        theme == Theme::System ==> theme_name(theme) == "system"@,
        language == UiLanguage::Es ==> ui_language_name(language) == "es"@,
        language == UiLanguage::En ==> ui_language_name(language) == "en"@,
        language == UiLanguage::Bilingual ==> ui_language_name(language) == "bilingual"@,
        preset == PromptPreset::BilingualEsEn ==> prompt_name(preset) == "Bilingüe ES+EN"@,
        preset == PromptPreset::SpanishOnly ==> prompt_name(preset) == "Solo español"@,
        preset == PromptPreset::EnglishOnly ==> prompt_name(preset) == "Solo inglés"@,
        preset == PromptPreset::Custom ==> prompt_name(preset) == "Personalizado"@,
        threads_text(None) == "Auto"@,
{
    reveal_strlit("Sí");
    reveal_strlit("No");
    assert("Sí"@[0] == 'S' && "No"@[0] == 'N');
}

/// A number of threads is shown as a numeral that can be read back.
pub proof fn threads_are_shown_as_a_numeral(n: u16)
    ensures
        number_of(threads_text(Some(n))) == Ok::<nat, NumberFault>(n as nat),
{
    a_numeral_is_read_back(n as nat);
}

/// Each preference stands in the row of its own label.
#[verifier::rlimit(40)]
pub proof fn every_preference_has_its_row(config: Config, models_dir: Seq<char>)
    ensures
        ({
            let all = config_table(config, models_dir);
            &&& contains_text(all, table_row("Tecla de Activación     "@, config.hotkey@))
            &&& contains_text(all, table_row("Modelo Whisper          "@, config.model@))
            &&& contains_text(all, table_row("Idioma de UI            "@, config.language_ui@))
            &&& contains_text(
                all,
                table_row("Usar GPU                "@, yes_no(config.use_gpu)),
            )
            &&& contains_text(
                all,
                table_row("Hilos Whisper           "@, threads_text(config.n_threads)),
            )
            &&& contains_text(
                all,
                table_row("Tema                    "@, theme_name(config.theme)),
            )
            &&& contains_text(
                all,
                table_row("Idioma del Menú         "@, ui_language_name(config.ui_language)),
            )
            &&& contains_text(
                all,
                table_row("System Prompt           "@, prompt_name(config.prompt_preset)),
            )
            &&& contains_text(
                all,
                table_row("Directorio de Modelos   "@, shortened(models_dir)),
            )
        }),
{
    let r1 = table_row("Tecla de Activación     "@, config.hotkey@);
    let r2 = table_row("Modelo Whisper          "@, config.model@);
    let r3 = table_row("Idioma de UI            "@, config.language_ui@);
    let r4 = table_row("Usar GPU                "@, yes_no(config.use_gpu));
    let r5 = table_row("Hilos Whisper           "@, threads_text(config.n_threads));
    let r6 = table_row("Tema                    "@, theme_name(config.theme));
    let r7 = table_row("Idioma del Menú         "@, ui_language_name(config.ui_language));
    let r8 = table_row("System Prompt           "@, prompt_name(config.prompt_preset));
    let r9 = table_row("Directorio de Modelos   "@, shortened(models_dir));
    let head = "┌──────────────────────────────────────────────────────────┐\n"@
        + "│                  oido 2.0 Configuración                  │\n"@
        + "├──────────────────────────┬───────────────────────────────┤\n"@;
    let line = "├──────────────────────────┼───────────────────────────────┤\n"@;
    let foot = "└──────────────────────────┴───────────────────────────────┘"@;
    let t1 = head + r1;
    let t2 = t1 + r2;
    let t3 = t2 + r3;
    let t4 = t3 + r4;
    let t5 = t4 + r5;
    let t6 = t5 + r6;
    let t7 = t6 + r7;
    let t8 = t7 + r8;
    let t9 = t8 + line + r9;
    let all = t9 + foot;
    assert(config_table(config, models_dir) == all);
    lemma_ends_in(head, r1);
    lemma_ends_in(t1, r2);
    lemma_ends_in(t2, r3);
    lemma_ends_in(t3, r4);
    lemma_ends_in(t4, r5);
    lemma_ends_in(t5, r6);
    lemma_ends_in(t6, r7);
    lemma_ends_in(t7, r8);
    lemma_ends_in(t8 + line, r9);
    lemma_still_contains(t1, r2, r1);
    lemma_still_contains(t2, r3, r1);
    lemma_still_contains(t2, r3, r2);
    lemma_still_contains(t3, r4, r1);
    lemma_still_contains(t3, r4, r2);
    lemma_still_contains(t3, r4, r3);
    let parts = seq![r1, r2, r3, r4];
    assert forall|k: int| 0 <= k < 4 implies contains_text(all, #[trigger] parts[k]) by {
        lemma_still_contains(t4, r5, parts[k]);
        lemma_still_contains(t5, r6, parts[k]);
        lemma_still_contains(t6, r7, parts[k]);
        lemma_still_contains(t7, r8, parts[k]);
        lemma_still_contains(t8, line, parts[k]);
        lemma_still_contains(t8 + line, r9, parts[k]);
        lemma_still_contains(t9, foot, parts[k]);
    }
    assert(parts[0] == r1 && parts[1] == r2 && parts[2] == r3 && parts[3] == r4);
    lemma_still_contains(t5, r6, r5);
    lemma_still_contains(t6, r7, r5);
    lemma_still_contains(t6, r7, r6);
    let more = seq![r5, r6, r7];
    assert forall|k: int| 0 <= k < 3 implies contains_text(all, #[trigger] more[k]) by {
        lemma_still_contains(t7, r8, more[k]);
        lemma_still_contains(t8, line, more[k]);
        lemma_still_contains(t8 + line, r9, more[k]);
        lemma_still_contains(t9, foot, more[k]);
    }
    assert(more[0] == r5 && more[1] == r6 && more[2] == r7);
    lemma_still_contains(t8, line, r8);
    lemma_still_contains(t8 + line, r9, r8);
    lemma_still_contains(t9, foot, r8);
    lemma_still_contains(t9, foot, r9);
}

proof fn lemma_ends_in(a: Seq<char>, b: Seq<char>)
    ensures
        contains_text(a + b, b),
{
    assert((a + b).subrange(a.len() as int, a.len() as int + b.len()) =~= b);
    assert(stands_at(a + b, b, a.len() as int));
}

proof fn lemma_still_contains(a: Seq<char>, b: Seq<char>, part: Seq<char>)
    requires
        contains_text(a, part),
    ensures
        contains_text(a + b, part),
{
    let i = choose|i: int| stands_at(a, part, i);
    assert((a + b).subrange(i, i + part.len()) =~= a.subrange(i, i + part.len()));
    assert(stands_at(a + b, part, i));
}

proof fn lemma_bytes_behind(head: Seq<char>, tail: Seq<char>, i: int)
    requires
        0 <= i <= tail.len(),
    ensures
        bytes_from(head + tail, head.len() + i) == bytes_from(tail, i),
    decreases tail.len() - i,
{
    if i < tail.len() {
        lemma_bytes_behind(head, tail, i + 1);
        assert((head + tail)[head.len() + i] == tail[i]);
    }
}

/// A path of up to 29 bytes is shown whole. Of a longer one three points and the
/// last 26 bytes are shown, which makes 29 again.
pub proof fn a_long_path_is_cut_at_its_start(path: Seq<char>)
    requires
        bytes_from(path, 0) > 29 ==> has_short_tail(path),
    ensures
        bytes_from(path, 0) <= 29 ==> shortened(path) == path,
        bytes_from(path, 0) > 29 ==> {
            let tail = shortened(path).skip(3);
            &&& shortened(path).take(3) == seq!['.', '.', '.']
            &&& tail.is_suffix_of(path)
            &&& bytes_from(tail, 0) == 26
        },
{
    reveal_strlit("...");
    if bytes_from(path, 0) > 29 {
        let i = choose|i: int| 0 <= i <= path.len() && #[trigger] bytes_from(path, i) == 26;
        let tail = path.skip(i);
        assert(shortened(path).take(3) =~= seq!['.', '.', '.']);
        assert(shortened(path).skip(3) =~= tail);
        assert(path =~= path.take(i) + tail);
        lemma_bytes_behind(path.take(i), tail, 0);
        assert(path.subrange(path.len() - tail.len(), path.len() as int) =~= tail);
    }
}

/// A character takes one byte up to 127, two up to 2047, three up to 65535 and
/// four from there on.
pub proof fn bytes_grow_with_the_character(c: char)
    ensures
        c as u32 <= 127 <==> byte_len(c) == 1,
        128 <= c as u32 <= 2047 <==> byte_len(c) == 2,
        2048 <= c as u32 <= 65535 <==> byte_len(c) == 3,
        65536 <= c as u32 <==> byte_len(c) == 4,
{
}

/// The report tells of the preferences and the model whether they are there,
/// each behind its path, and ends with whether the graphics processor is
/// supported.
#[verifier::rlimit(40)]
pub proof fn the_report_tells_what_is_there(facts: SystemFacts)
    ensures
        ({
            let config = facts.config_path@ + " ("@ + (if facts.config_exists {
                "Presente"@
            } else {
                "No encontrado, usando defaults"@
            });
            let model = facts.model_path@ + " ("@ + (if facts.model_exists {
                "Descargado"@
            } else {
                "Falta / No encontrado"@
            });
            &&& contains_text(report_of(facts), "\nArchivo de Configuración: "@ + config)
            &&& contains_text(report_of(facts), "\nModelo Whisper: "@ + model)
            &&& contains_text(
                report_of(facts),
                ")\nDirectorio de Modelos: "@ + facts.models_dir@,
            )
            &&& contains_text(
                report_of(facts),
                "\n--- Diagnóstico de Sistema ---\nVersión oido: "@ + facts.version@,
            )
            &&& contains_text(
                report_of(facts),
                ")\nGPU Compilada: "@ + (if facts.gpu_support {
                    "Sí"@
                } else {
                    "No"@
                }),
            )
        }),
{
    let config = facts.config_path@ + " ("@ + (if facts.config_exists {
        "Presente"@
    } else {
        "No encontrado, usando defaults"@
    });
    let model = facts.model_path@ + " ("@ + (if facts.model_exists {
        "Descargado"@
    } else {
        "Falta / No encontrado"@
    });
    let a = "\n--- Diagnóstico de Sistema ---\nVersión oido: "@ + facts.version@;
    let b = "\nArchivo de Configuración: "@ + config;
    let c = ")\nDirectorio de Modelos: "@ + facts.models_dir@;
    let d = "\nModelo Whisper: "@ + model;
    let e = ")\nGPU Compilada: "@ + yes_no(facts.gpu_support);
    assert(report_of(facts) =~= a + b + c + d + e);
    lemma_ends_in(Seq::empty(), a);
    assert(Seq::<char>::empty() + a =~= a);
    lemma_ends_in(a, b);
    lemma_ends_in(a + b, c);
    lemma_ends_in(a + b + c, d);
    lemma_ends_in(a + b + c + d, e);
    lemma_still_contains(a, b, a);
    lemma_still_contains(a + b, c, a);
    lemma_still_contains(a + b, c, b);
    lemma_still_contains(a + b + c, d, a);
    lemma_still_contains(a + b + c, d, b);
    lemma_still_contains(a + b + c, d, c);
    lemma_still_contains(a + b + c + d, e, a);
    lemma_still_contains(a + b + c + d, e, b);
    lemma_still_contains(a + b + c + d, e, c);
    lemma_still_contains(a + b + c + d, e, d);
}

/// The label stands at the left of its row and the value behind it, between
/// bars.
pub proof fn a_row_has_label_and_value(label: Seq<char>, value: Seq<char>)
    ensures
        ({
            let row = table_row(label, value);
            let at = label.len() + 5int;
            &&& row.take(2) == seq!['│', ' ']
            &&& row.subrange(2, label.len() + 2int) == label
            &&& row.subrange(label.len() + 2int, at) == seq![' ', '│', ' ']
            &&& row.subrange(at, at + value.len()) == value
            &&& row.skip(row.len() - 3) == seq![' ', '│', '\n']
        }),
{
    reveal_strlit("│ ");
    reveal_strlit(" │ ");
    reveal_strlit(" │\n");
    let row = table_row(label, value);
    let at = label.len() + 5int;
    assert(row.take(2) =~= seq!['│', ' ']);
    assert(row.subrange(2, label.len() + 2int) =~= label);
    assert(row.subrange(label.len() + 2int, at) =~= seq![' ', '│', ' ']);
    assert(row.subrange(at, at + value.len()) =~= value);
    assert(row.skip(row.len() - 3) =~= seq![' ', '│', '\n']);
}

} // verus!
