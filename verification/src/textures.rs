//! Which texture files to try for a body, best first.

use vstd::prelude::*;

verus! {

broadcast use vstd::string::group_string_axioms;

/// What `Path::file_stem` gives for the path `path`, read as text: the
/// final file name without its last extension.
pub uninterp spec fn path_file_stem(path: Seq<char>) -> Option<Seq<char>>;

/// The stem of the file name `file`, through `std::path::Path::file_stem`
/// (then `OsStr::to_str`). Trusted: the result is what `file_stem` returns
/// for `file`, which depends on `file` alone; nothing more is stated of it.
#[verifier::external_body]
fn file_stem_text(file: &str) -> (stem: Option<String>)
    ensures
        match stem {
            Some(s) => path_file_stem(file@) == Some(s@),
            None => path_file_stem(file@) is None,
        },
{
    match std::path::Path::new(file).file_stem() {
        Some(os) => match os.to_str() {
            Some(s) => Some(s.to_string()),
            None => None,
        },
        None => None,
    }
}

/// The file names to try for a configured texture, best first: the
/// GPU-compressed `.ktx2` and `.dds` variants of the same stem, then the
/// configured file itself.
pub open spec fn texture_candidates(file: Seq<char>) -> Seq<Seq<char>> {
    match path_file_stem(file) {
        Some(stem) => seq![stem + ".ktx2"@, stem + ".dds"@, file],
        None => seq![file],
    }
}

/// The file names to try for the configured texture `file`, best first.
pub fn texture_load_candidates(file: &str) -> (names: Vec<String>)
    ensures
        names@.map_values(|n: String| n@) == texture_candidates(file@),
{
    let mut names: Vec<String> = Vec::new();
    match file_stem_text(file) {
        Some(stem) => {
            let mut ktx2 = stem.clone();
            ktx2.append(".ktx2");
            let mut dds = stem;
            dds.append(".dds");
            names.push(ktx2);
            names.push(dds);
        },
        None => {},
    }
    names.push(file.to_string());
    assert(names@.map_values(|n: String| n@) =~= texture_candidates(file@));
    names
}

/// The asset path under which a texture file is loaded.
pub fn texture_asset_path(name: &str) -> (path: String)
    ensures
        path@ == "textures/"@ + name@,
{
    let mut path = "textures/".to_string();
    path.append(name);
    path
}

/// How far a body texture has loaded.
pub enum TextureLoad {
    Loaded,
    /// Loading failed with this error text.
    Failed(String),
    /// Not loaded yet.
    Pending,
}

/// A registered body texture and its load state.
pub struct TextureEntry {
    pub body_name: String,
    pub path: String,
    pub load: TextureLoad,
}

/// How many of `entries` have loaded.
pub open spec fn loaded_count(entries: Seq<TextureEntry>) -> nat
    decreases entries.len(),
{
    if entries.len() == 0 {
        0
    } else {
        loaded_count(entries.drop_last()) + if entries.last().load is Loaded {
            1nat
        } else {
            0nat
        }
    }
}

/// The report of each failed texture, in order: `<body> (<path>): <error>`.
pub open spec fn failure_reports(entries: Seq<TextureEntry>) -> Seq<Seq<char>>
    decreases entries.len(),
{
    if entries.len() == 0 {
        Seq::empty()
    } else {
        let before = failure_reports(entries.drop_last());
        let e = entries.last();
        match e.load {
            TextureLoad::Failed(err) => before.push(
                e.body_name@ + " ("@ + e.path@ + "): "@ + err@,
            ),
            _ => before,
        }
    }
}

/// The texture summary line: `Textures: <loaded>/<registered> loaded`.
pub open spec fn texture_summary(entries: Seq<TextureEntry>) -> Seq<char> {
    "Textures: "@ + crate::text::decimal(loaded_count(entries)) + "/"@ + crate::text::decimal(
        entries.len(),
    ) + " loaded"@
}

/// The texture summary line and the report of each failed texture.
pub fn texture_status(entries: &Vec<TextureEntry>) -> (r: (String, Vec<String>))
    ensures
        r.0@ == texture_summary(entries@),
        r.1@.map_values(|f: String| f@) == failure_reports(entries@),
{
    let mut loaded: usize = 0;
    let mut failed: Vec<String> = Vec::new();
    let mut i: usize = 0;
    assert(entries@.take(0) =~= Seq::<TextureEntry>::empty());
    while i < entries.len()
        invariant
            i <= entries.len(),
            loaded <= i,
            loaded as nat == loaded_count(entries@.take(i as int)),
            failed@.map_values(|f: String| f@) =~= failure_reports(entries@.take(i as int)),
        decreases entries.len() - i,
    {
        let e = &entries[i];
        assert(entries@.take((i + 1) as int).drop_last() =~= entries@.take(i as int));
        assert(entries@.take((i + 1) as int).last() == *e);
        match &e.load {
            TextureLoad::Loaded => {
                loaded = loaded + 1;
            },
            TextureLoad::Failed(err) => {
                let mut line = e.body_name.clone();
                line.append(" (");
                line.append(e.path.as_str());
                line.append("): ");
                line.append(err.as_str());
                let ghost before = failed@;
                failed.push(line);
                assert(failed@.map_values(|f: String| f@) =~= before.map_values(|f: String| f@).push(
                    line@,
                ));
            },
            TextureLoad::Pending => {},
        }
        i = i + 1;
    }
    assert(entries@.take(entries.len() as int) =~= entries@);
    let mut summary = "Textures: ".to_string();
    summary.append(crate::text::decimal_text(loaded as u64).as_str());
    summary.append("/");
    summary.append(crate::text::decimal_text(entries.len() as u64).as_str());
    summary.append(" loaded");
    (summary, failed)
}

/// The summary never counts more loaded textures than are registered, and
/// a texture is either counted, reported as failed, or still pending.
pub proof fn lemma_loaded_within_registered(entries: Seq<TextureEntry>)
    ensures
        loaded_count(entries) + failure_reports(entries).len() <= entries.len(),
    decreases entries.len(),
{
    if entries.len() > 0 {
        lemma_loaded_within_registered(entries.drop_last());
    }
}

/// The configured file is always the last resort, so a texture that exists
/// only in its plain form is still found.
pub proof fn lemma_configured_file_tried_last(file: Seq<char>)
    ensures
        texture_candidates(file).len() >= 1,
        texture_candidates(file).last() == file,
{
}

} // verus!
