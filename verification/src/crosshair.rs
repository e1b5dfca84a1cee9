//! Crosshair images: which files count as one, and what is known of each.

use vstd::prelude::*;
use crate::text::{
    lemma_text_le_antisymmetric,
    lemma_text_le_total,
    lemma_text_le_transitive,
    lowercase,
    same_text,
    text_le,
    text_lt,
    text_precedes,
    to_lowercase,
};

verus! {

/// A path in the file system.
#[verifier::external_type_specification]
#[verifier::external_body]
pub struct ExPathBuf(std::path::PathBuf);

/// The final component of a path as text, by `Path::file_name`: the name of
/// the file or directory that the path ends in. There is none where the path
/// ends in `..` or has no component, nor where the name is not valid
/// Unicode. How a path falls into components depends on the platform, so
/// nothing more is said of the result.
#[verifier::external_body]
fn file_name_of(path: &std::path::PathBuf) -> (r: Option<String>) {
    match path.file_name() {
        Some(name) => match name.to_str() {
            Some(text) => Some(text.to_owned()),
            None => None,
        },
        None => None,
    }
}

/// Index of the last dot among the first `end` characters of a file name;
/// -1 where there is none.
pub open spec fn last_dot_before(name: Seq<char>, end: int) -> int
    decreases end,
{
    if end <= 0 || end > name.len() {
        -1
    } else if name[end - 1] == '.' {
        end - 1
    } else {
        last_dot_before(name, end - 1)
    }
}

/// A file name without its extension: what stands before the last dot. A
/// name without a dot, or whose only dot is its first character, has no
/// extension and is its own stem.
pub open spec fn stem_text(name: Seq<char>) -> Seq<char> {
    let dot = last_dot_before(name, name.len() as int);
    if dot > 0 {
        name.subrange(0, dot)
    } else {
        name
    }
}

/// A file name without its extension.
pub fn file_stem(name: &str) -> (r: String)
    ensures
        r@ == stem_text(name@),
{
    let n = name.unicode_len();
    let mut end = n;
    while end > 0
        invariant
            n == name@.len(),
            end <= n,
            last_dot_before(name@, n as int) == last_dot_before(name@, end as int),
        decreases end,
    {
        if name.get_char(end - 1) == '.' {
            if end - 1 > 0 {
                return name.substring_char(0, end - 1).to_owned();
            } else {
                return name.to_owned();
            }
        }
        end -= 1;
    }
    name.to_owned()
}

/// The extension of a file name: what stands after the last dot. A name
/// without a dot, or whose only dot is its first character, has none.
pub open spec fn extension_text(name: Seq<char>) -> Option<Seq<char>> {
    let dot = last_dot_before(name, name.len() as int);
    if dot > 0 {
        Some(name.subrange(dot + 1, name.len() as int))
    } else {
        None
    }
}

/// The extension of a file name, if it has one.
pub fn extension_of(name: &str) -> (r: Option<String>)
    ensures
        r.is_some() == extension_text(name@).is_some(),
        r.is_some() ==> r.unwrap()@ == extension_text(name@).unwrap(),
{
    let n = name.unicode_len();
    let mut end = n;
    while end > 0
        invariant
            n == name@.len(),
            end <= n,
            last_dot_before(name@, n as int) == last_dot_before(name@, end as int),
        decreases end,
    {
        if name.get_char(end - 1) == '.' {
            if end - 1 > 0 {
                return Some(name.substring_char(end, n).to_owned());
            } else {
                return None;
            }
        }
        end -= 1;
    }
    None
}

/// What is known of a crosshair image.
#[derive(Debug)]
pub struct CrosshairInfo {
    /// The image's file name.
    pub filename: String,
    /// The name shown for it: the file name without its extension.
    pub name: String,
    /// The full path of the file.
    pub path: std::path::PathBuf,
    /// Whether the image comes with the program.
    pub is_builtin: bool,
    /// Whether the image was added by the user.
    pub is_custom: bool,
}

impl CrosshairInfo {
    /// Describes a crosshair by the file name that its path ends in. There
    /// is a description exactly where there is a file name; the name shown
    /// is the file name without its extension, and an image is custom
    /// exactly when it is not built in.
    pub fn from_file_name(
        filename: Option<String>,
        path: std::path::PathBuf,
        is_builtin: bool,
    ) -> (r: Option<Self>)
        ensures
            r.is_some() == filename.is_some(),
            r.is_some() ==> {
                &&& r.unwrap().filename == filename.unwrap()
                &&& r.unwrap().name@ == stem_text(filename.unwrap()@)
                &&& r.unwrap().path == path
                &&& r.unwrap().is_builtin == is_builtin
                &&& r.unwrap().is_custom == !is_builtin
            },
    {
        match filename {
            Some(filename) => {
                let name = file_stem(filename.as_str());
                Some(CrosshairInfo { filename, name, path, is_builtin, is_custom: !is_builtin })
            },
            None => None,
        }
    }

    /// Describes the crosshair at a path. The file name is the one that the
    /// platform's path rules give; where they give none there is no
    /// description.
    pub fn from_path(path: std::path::PathBuf, is_builtin: bool) -> (r: Option<Self>)
        ensures
            r.is_some() ==> {
                &&& r.unwrap().name@ == stem_text(r.unwrap().filename@)
                &&& r.unwrap().path == path
                &&& r.unwrap().is_builtin == is_builtin
                &&& r.unwrap().is_custom == !is_builtin
            },
    {
        let filename = file_name_of(&path);
        Self::from_file_name(filename, path, is_builtin)
    }
}

/// Whether a lower-case text is the extension of a supported image format.
pub open spec fn is_image_extension(t: Seq<char>) -> bool {
    t == "png"@ || t == "svg"@ || t == "gif"@ || t == "jpg"@ || t == "jpeg"@ || t == "webp"@
}

/// Whether a text already in lower case is the extension of a supported
/// image format.
pub fn is_supported_lowercase(ext: &str) -> (r: bool)
    ensures
        r == is_image_extension(ext@),
{
    same_text(ext, "png") || same_text(ext, "svg") || same_text(ext, "gif") || same_text(
        ext,
        "jpg",
    ) || same_text(ext, "jpeg") || same_text(ext, "webp")
}

/// Whether a file extension, in any case, is that of a supported image
/// format.
pub fn is_supported_extension(ext: &str) -> (r: bool)
    ensures
        r == is_image_extension(lowercase(ext@)),
{
    let lower = to_lowercase(ext);
    is_supported_lowercase(lower.as_str())
}

/// Whether a lower-case file name has the extension of a supported image
/// format.
pub open spec fn names_image(t: Seq<char>) -> bool {
    extension_text(t).is_some() && is_image_extension(extension_text(t).unwrap())
}

/// Whether a file name already in lower case has the extension of a
/// supported image format.
pub fn is_image_name_lowercase(name: &str) -> (r: bool)
    ensures
        r == names_image(name@),
{
    match extension_of(name) {
        Some(extension) => is_supported_lowercase(extension.as_str()),
        None => false,
    }
}

/// Whether a file name has, in any case, the extension of a supported image
/// format.
pub fn is_crosshair_file_name(name: &str) -> (r: bool)
    ensures
        r == names_image(lowercase(name@)),
{
    let lower = to_lowercase(name);
    is_image_name_lowercase(lower.as_str())
}

/// Whether the names stand in the order of texts, each strictly before the
/// next: sorted, and none of them twice.
pub open spec fn strictly_sorted(names: Seq<Seq<char>>) -> bool {
    forall|i: int, j: int| 0 <= i < j < names.len() ==> text_lt(names[i], names[j])
}

/// Whether `name` is one of the first `n` of `names` whose flag in `chosen`
/// is set. A name without a flag counts as not chosen.
pub open spec fn is_chosen(names: Seq<Seq<char>>, chosen: Seq<bool>, n: int, name: Seq<char>) -> bool {
    exists|i: int| 0 <= i < n && i < names.len() && i < chosen.len() && chosen[i] && names[i] == name
}

/// For each name, whether it is the file name of a crosshair image.
pub open spec fn image_flags(names: Seq<Seq<char>>) -> Seq<bool> {
    Seq::new(names.len(), |i: int| names_image(lowercase(names[i])))
}

/// Puts a name into a sorted list of names, unless it is there already.
fn insert_sorted(out: &mut Vec<String>, name: String)
    requires
        strictly_sorted(old(out).deep_view()),
    ensures
        strictly_sorted(final(out).deep_view()),
        forall|t: Seq<char>|
            final(out).deep_view().contains(t) <==> (old(out).deep_view().contains(t) || t
                == name@),
{
    let ghost before = out.deep_view();
    let mut i: usize = 0;
    while i < out.len() && text_precedes(out[i].as_str(), name.as_str()) && !same_text(
        out[i].as_str(),
        name.as_str(),
    )
        invariant
            out.deep_view() == before,
            strictly_sorted(before),
            i <= out.len(),
            forall|j: int| 0 <= j < i ==> text_lt(before[j], name@),
        decreases out.len() - i,
    {
        i += 1;
    }
    if i < out.len() && same_text(out[i].as_str(), name.as_str()) {
        proof {
            assert(before[i as int] == name@);
        }
        return ;
    }
    proof {
        if i < before.len() {
            lemma_text_le_total(before[i as int], name@);
            assert(text_lt(name@, before[i as int]));
            assert forall|j: int| i <= j < before.len() implies text_lt(name@, before[j]) by {
                if j > i {
                    assert(text_lt(before[i as int], before[j]));
                    lemma_text_le_transitive(name@, before[i as int], before[j]);
                    if name@ == before[j] {
                        lemma_text_le_antisymmetric(name@, before[i as int]);
                    }
                }
            }
        }
    }
    out.insert(i, name);
    proof {
        let after = out.deep_view();
        assert(after =~= before.insert(i as int, name@));
        assert forall|a: int, b: int| 0 <= a < b < after.len() implies text_lt(
            after[a],
            after[b],
        ) by {
            if a < i && b > i {
                assert(after[a] == before[a]);
                assert(after[b] == before[b - 1]);
                if b - 1 > a {
                    assert(text_lt(before[a], before[b - 1]));
                }
                lemma_text_le_transitive(before[a], name@, before[b - 1]);
                if before[a] == before[b - 1] {
                    lemma_text_le_antisymmetric(before[a], name@);
                }
            } else if a < i && b == i {
                assert(after[a] == before[a]);
            } else if a == i {
                assert(after[b] == before[b - 1]);
            } else if b < i {
                assert(after[a] == before[a] && after[b] == before[b]);
            } else {
                assert(after[a] == before[a - 1] && after[b] == before[b - 1]);
            }
        }
        assert forall|t: Seq<char>| after.contains(t) <==> (before.contains(t) || t == name@) by {
            if after.contains(t) {
                let k = choose|k: int| 0 <= k < after.len() && after[k] == t;
                if k < i {
                    assert(before[k] == t);
                } else if k > i {
                    assert(before[k - 1] == t);
                }
            }
            if before.contains(t) {
                let k = choose|k: int| 0 <= k < before.len() && before[k] == t;
                if k < i {
                    assert(after[k] == t);
                } else {
                    assert(after[k + 1] == t);
                }
            }
            if t == name@ {
                assert(after[i as int] == t);
            }
        }
    }
}

/// The chosen names in the order of texts, each once: `chosen` holds, for
/// each name, whether it is taken.
pub fn sorted_names(names: &Vec<String>, chosen: &Vec<bool>) -> (r: Vec<String>)
    ensures
        strictly_sorted(r.deep_view()),
        forall|t: Seq<char>|
            r.deep_view().contains(t) <==> is_chosen(
                names.deep_view(),
                chosen@,
                names.len() as int,
                t,
            ),
{
    let mut out: Vec<String> = Vec::new();
    let mut i: usize = 0;
    while i < names.len()
        invariant
            i <= names.len(),
            strictly_sorted(out.deep_view()),
            forall|t: Seq<char>|
                out.deep_view().contains(t) <==> is_chosen(
                    names.deep_view(),
                    chosen@,
                    i as int,
                    t,
                ),
        decreases names.len() - i,
    {
        let ghost before = out.deep_view();
        if i < chosen.len() && chosen[i] {
            insert_sorted(&mut out, names[i].clone());
        }
        proof {
            let all = names.deep_view();
            assert forall|t: Seq<char>|
                out.deep_view().contains(t) <==> is_chosen(all, chosen@, i + 1, t) by {
                if is_chosen(all, chosen@, i + 1, t) {
                    let k = choose|k: int|
                        0 <= k < i + 1 && k < all.len() && k < chosen@.len() && chosen@[k]
                            && all[k] == t;
                    if k < i {
                        assert(is_chosen(all, chosen@, i as int, t));
                    }
                }
                if is_chosen(all, chosen@, i as int, t) {
                    let k = choose|k: int|
                        0 <= k < i && k < all.len() && k < chosen@.len() && chosen@[k] && all[k]
                            == t;
                    assert(0 <= k < i + 1);
                }
                if i < chosen@.len() && chosen@[i as int] && t == all[i as int] {
                    assert(is_chosen(all, chosen@, i + 1, t));
                }
            }
        }
        i += 1;
    }
    out
}

/// Tests each name for being the file name of a crosshair image.
pub fn test_names(names: &Vec<String>) -> (r: Vec<bool>)
    ensures
        r@ == image_flags(names.deep_view()),
{
    let mut flags: Vec<bool> = Vec::new();
    let mut i: usize = 0;
    while i < names.len()
        invariant
            i <= names.len(),
            flags@.len() == i,
            forall|j: int| 0 <= j < i ==> flags@[j] == names_image(lowercase(names@[j]@)),
        decreases names.len() - i,
    {
        flags.push(is_crosshair_file_name(names[i].as_str()));
        i += 1;
    }
    assert(flags@ =~= image_flags(names.deep_view()));
    flags
}

/// The list of crosshair images among the files found: the names whose
/// extension, in any case, is a supported one, sorted and each once.
pub fn get_crosshair_list(names: &Vec<String>) -> (r: Vec<String>)
    ensures
        strictly_sorted(r.deep_view()),
        forall|t: Seq<char>|
            r.deep_view().contains(t) <==> is_chosen(
                names.deep_view(),
                image_flags(names.deep_view()),
                names.len() as int,
                t,
            ),
{
    let flags = test_names(names);
    sorted_names(names, &flags)
}

/// Why a crosshair could not be imported, found or deleted.
#[derive(Debug, Clone, PartialEq, Eq)]
pub enum CrosshairError {
    /// The file to import has no extension.
    InvalidExtension,
    /// The file to import has an extension that is not supported; carries
    /// the extension.
    UnsupportedFormat(String),
    /// The file to import has no usable file name.
    InvalidFilename,
    /// No crosshair of that file name exists; carries the file name.
    NotFound(String),
    /// The crosshair comes with the program and cannot be deleted.
    BuiltIn,
}

/// A crosshair error as plain values.
pub enum CrosshairErrorView {
    InvalidExtension,
    UnsupportedFormat(Seq<char>),
    InvalidFilename,
    NotFound(Seq<char>),
    BuiltIn,
}

impl View for CrosshairError {
    type V = CrosshairErrorView;

    open spec fn view(&self) -> CrosshairErrorView {
        match self {
            CrosshairError::InvalidExtension => CrosshairErrorView::InvalidExtension,
            CrosshairError::UnsupportedFormat(e) => CrosshairErrorView::UnsupportedFormat(e@),
            CrosshairError::InvalidFilename => CrosshairErrorView::InvalidFilename,
            CrosshairError::NotFound(n) => CrosshairErrorView::NotFound(n@),
            CrosshairError::BuiltIn => CrosshairErrorView::BuiltIn,
        }
    }
}

impl CrosshairErrorView {
    /// The message shown for the error.
    pub open spec fn text(self) -> Seq<char> {
        match self {
            CrosshairErrorView::InvalidExtension => "Invalid file extension"@,
            CrosshairErrorView::UnsupportedFormat(e) => "Unsupported image format: "@ + e,
            CrosshairErrorView::InvalidFilename => "Invalid filename"@,
            CrosshairErrorView::NotFound(n) => "Crosshair not found: "@ + n,
            CrosshairErrorView::BuiltIn => "Cannot delete built-in crosshairs"@,
        }
    }
}

impl CrosshairError {
    /// The message shown for the error.
    pub fn message(&self) -> (r: String)
        ensures
            r@ == self@.text(),
    {
        match self {
            CrosshairError::InvalidExtension => "Invalid file extension".to_owned(),
            CrosshairError::UnsupportedFormat(e) => "Unsupported image format: ".to_owned().concat(
                e.as_str(),
            ),
            CrosshairError::InvalidFilename => "Invalid filename".to_owned(),
            CrosshairError::NotFound(n) => "Crosshair not found: ".to_owned().concat(n.as_str()),
            CrosshairError::BuiltIn => "Cannot delete built-in crosshairs".to_owned(),
        }
    }
}

/// Where a crosshair image lies.
#[derive(Debug, Clone, Copy, PartialEq, Eq, Structural)]
pub enum CrosshairLocation {
    /// Among the images that come with the program.
    BuiltIn,
    /// Among the images that the user added.
    Custom,
}

/// Checks a file before it is imported as a crosshair, by its extension and
/// its file name as the path gives them. The import is refused
/// - with `InvalidExtension` where there is no extension;
/// - else with `UnsupportedFormat` where the extension, in any case, is not
///   that of a supported image format;
/// - else with `InvalidFilename` where there is no file name.
///
/// In every other case the result is the file name under which the image is
/// stored.
pub fn import_crosshair(extension: Option<&str>, filename: Option<&str>) -> (r: Result<
    String,
    CrosshairError,
>)
    ensures
        match r {
            Ok(name) => {
                &&& extension.is_some()
                &&& is_image_extension(lowercase(extension.unwrap()@))
                &&& filename.is_some()
                &&& name@ == filename.unwrap()@
            },
            Err(CrosshairError::InvalidExtension) => extension.is_none(),
            Err(CrosshairError::UnsupportedFormat(e)) => {
                &&& extension.is_some()
                &&& !is_image_extension(lowercase(extension.unwrap()@))
                &&& e@ == extension.unwrap()@
            },
            Err(CrosshairError::InvalidFilename) => {
                &&& extension.is_some()
                &&& is_image_extension(lowercase(extension.unwrap()@))
                &&& filename.is_none()
            },
            Err(_) => false,
        },
{
    let extension = match extension {
        Some(e) => e,
        None => {
            return Err(CrosshairError::InvalidExtension);
        },
    };
    if !is_supported_extension(extension) {
        return Err(CrosshairError::UnsupportedFormat(extension.to_owned()));
    }
    match filename {
        Some(name) => Ok(name.to_owned()),
        None => Err(CrosshairError::InvalidFilename),
    }
}

/// Says where the crosshair of a file name lies, given whether a file of
/// that name exists among the built-in images and among the custom ones. The
/// built-in image is taken where both exist; where neither does, the call
/// fails with `NotFound`.
pub fn validate_crosshair(filename: &str, in_builtin: bool, in_custom: bool) -> (r: Result<
    CrosshairLocation,
    CrosshairError,
>)
    ensures
        match r {
            Ok(CrosshairLocation::BuiltIn) => in_builtin,
            Ok(CrosshairLocation::Custom) => !in_builtin && in_custom,
            Err(e) => !in_builtin && !in_custom && e@ == CrosshairErrorView::NotFound(filename@),
        },
{
    if in_builtin {
        Ok(CrosshairLocation::BuiltIn)
    } else if in_custom {
        Ok(CrosshairLocation::Custom)
    } else {
        Err(CrosshairError::NotFound(filename.to_owned()))
    }
}

/// Checks a custom crosshair before it is deleted, given whether its file
/// exists and whether that file lies among the built-in images. The call
/// fails with `NotFound` where the file does not exist, else with `BuiltIn`
/// where it lies among the built-in images.
pub fn delete_crosshair(filename: &str, exists: bool, is_builtin: bool) -> (r: Result<
    (),
    CrosshairError,
>)
    ensures
        match r {
            Ok(_) => exists && !is_builtin,
            Err(e) => if !exists {
                e@ == CrosshairErrorView::NotFound(filename@)
            } else {
                is_builtin && e@ == CrosshairErrorView::BuiltIn
            },
        },
{
    if !exists {
        Err(CrosshairError::NotFound(filename.to_owned()))
    } else if is_builtin {
        Err(CrosshairError::BuiltIn)
    } else {
        Ok(())
    }
}

/// The address under which the user interface loads the image at a path.
pub fn get_crosshair_url(path: &str) -> (r: String)
    ensures
        r@ == "asset://localhost/"@ + path@,
{
    "asset://localhost/".to_owned().concat(path)
}

/// The key by which crosshair descriptions are ordered: the name shown, in
/// lower case.
pub open spec fn name_key(info: CrosshairInfo) -> Seq<char> {
    lowercase(info.name@)
}

/// Whether the descriptions stand in the order of their keys.
pub open spec fn ordered_by_name(list: Seq<CrosshairInfo>) -> bool {
    forall|i: int, j: int|
        0 <= i < j < list.len() ==> text_le(name_key(#[trigger] list[i]), name_key(#[trigger] list[j]))
}

/// Where a description with the key `key` is put among those of `sorted`
/// from index `from` on: before the first whose key does not come before
/// `key`, and at the end where there is none.
pub open spec fn place_of(sorted: Seq<CrosshairInfo>, key: Seq<char>, from: int) -> int
    decreases sorted.len() - from,
{
    if from < 0 || from >= sorted.len() {
        sorted.len() as int
    } else if text_le(key, name_key(sorted[from])) {
        from
    } else {
        place_of(sorted, key, from + 1)
    }
}

/// The descriptions of `list` in the order of their keys. Descriptions with
/// the same key keep the order that they have in `list`.
pub open spec fn sorted_by_name(list: Seq<CrosshairInfo>) -> Seq<CrosshairInfo>
    decreases list.len(),
{
    if list.len() == 0 {
        Seq::empty()
    } else {
        let rest = sorted_by_name(list.drop_first());
        rest.insert(place_of(rest, name_key(list.first()), 0), list.first())
    }
}

/// The place found lies within the list, every description before it has a
/// key that comes before `key`, and the one at it has not.
pub proof fn lemma_place_of(sorted: Seq<CrosshairInfo>, key: Seq<char>, from: int)
    requires
        0 <= from <= sorted.len(),
    ensures
        from <= place_of(sorted, key, from) <= sorted.len(),
        forall|j: int|
            from <= j < place_of(sorted, key, from) ==> !text_le(key, name_key(#[trigger] sorted[j])),
        place_of(sorted, key, from) < sorted.len() ==> text_le(
            key,
            name_key(sorted[place_of(sorted, key, from)]),
        ),
    decreases sorted.len() - from,
{
    if from < sorted.len() && !text_le(key, name_key(sorted[from])) {
        lemma_place_of(sorted, key, from + 1);
    }
}

/// Sorting by name gives the same descriptions, as many times each, in the
/// order of their keys.
pub proof fn lemma_sorted_by_name(list: Seq<CrosshairInfo>)
    ensures
        sorted_by_name(list).len() == list.len(),
        ordered_by_name(sorted_by_name(list)),
        sorted_by_name(list).to_multiset() == list.to_multiset(),
    decreases list.len(),
{
    broadcast use vstd::seq_lib::group_to_multiset_ensures;

    if list.len() > 0 {
        let x = list.first();
        let key = name_key(x);
        let rest = sorted_by_name(list.drop_first());
        lemma_sorted_by_name(list.drop_first());
        lemma_place_of(rest, key, 0);
        let p = place_of(rest, key, 0);
        let all = rest.insert(p, x);
        assert forall|i: int, j: int| 0 <= i < j < all.len() implies text_le(
            name_key(#[trigger] all[i]),
            name_key(#[trigger] all[j]),
        ) by {
            if j < p {
                assert(all[i] == rest[i] && all[j] == rest[j]);
            } else if j == p {
                assert(all[i] == rest[i]);
                lemma_text_le_total(key, name_key(rest[i]));
            } else if i < p {
                assert(all[i] == rest[i] && all[j] == rest[j - 1]);
            } else if i == p {
                assert(all[j] == rest[j - 1]);
                if j - 1 > p {
                    assert(text_le(name_key(rest[p]), name_key(rest[j - 1])));
                    lemma_text_le_transitive(key, name_key(rest[p]), name_key(rest[j - 1]));
                }
            } else {
                assert(all[i] == rest[i - 1] && all[j] == rest[j - 1]);
            }
        }
        assert(all.remove(p) =~= rest);
        assert(rest.to_multiset() == all.to_multiset().remove(x));
        assert(all.to_multiset().count(x) > 0) by {
            assert(all[p] == x);
            assert(all.contains(x));
        }
        assert(all.to_multiset() =~= rest.to_multiset().insert(x));
        assert(list =~= seq![x] + list.drop_first());
        assert(list.to_multiset() =~= list.drop_first().to_multiset().insert(x)) by {
            vstd::seq_lib::lemma_multiset_commutative(seq![x], list.drop_first());
            assert(seq![x] =~= Seq::<CrosshairInfo>::empty().push(x));
        }
    }
}

/// Orders the crosshair descriptions found by the name shown, without
/// regard to case. Descriptions whose names are alike but for case keep the
/// order in which they were found.
pub fn list_crosshairs(found: Vec<CrosshairInfo>) -> (r: Vec<CrosshairInfo>)
    ensures
        r@ == sorted_by_name(found@),
        r@.len() == found@.len(),
        ordered_by_name(r@),
        r@.to_multiset() == found@.to_multiset(),
{
    let ghost all = found@;
    let mut list = found;
    let mut out: Vec<CrosshairInfo> = Vec::new();
    assert(all.subrange(all.len() as int, all.len() as int) =~= Seq::<CrosshairInfo>::empty());
    while list.len() > 0
        invariant
            list@.len() <= all.len(),
            list@ == all.subrange(0, list@.len() as int),
            out@ == sorted_by_name(all.subrange(list@.len() as int, all.len() as int)),
        decreases list@.len(),
    {
        let ghost k = list@.len() as int;
        let x = list.pop().unwrap();
        let key = to_lowercase(x.name.as_str());
        let mut i: usize = 0;
        while i < out.len() && !text_precedes(
            key.as_str(),
            to_lowercase(out[i].name.as_str()).as_str(),
        )
            invariant
                i <= out.len(),
                key@ == name_key(x),
                place_of(out@, key@, 0) == place_of(out@, key@, i as int),
            decreases out.len() - i,
        {
            i += 1;
        }
        proof {
            let suffix = all.subrange(k - 1, all.len() as int);
            assert(suffix.first() == x);
            assert(suffix.drop_first() =~= all.subrange(k, all.len() as int));
            assert(list@ =~= all.subrange(0, k - 1));
        }
        out.insert(i, x);
    }
    proof {
        assert(all.subrange(0, all.len() as int) =~= all);
        lemma_sorted_by_name(all);
    }
    out
}

} // verus!
