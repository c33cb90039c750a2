//! What the picker reads from the records of the files it lists, and how it
//! names the attributes it asks for.

use vstd::prelude::*;

use crate::backends::opt_text;
use crate::text::{is_unicode_whitespace, trim_end_str};

verus! {

/// The attribute that says whether a file's thumbnail is up to date.
pub const FILE_ATTRIBUTE_THUMBNAIL_IS_VALID: &'static str = "thumbnail::is-valid";

/// The attribute that holds the path of a file's thumbnail.
pub const FILE_ATTRIBUTE_THUMBNAIL_PATH: &'static str = "thumbnail::path";

/// One attribute of a listed file: its name, and its value as text where it
/// has one.
#[derive(Debug, Clone, PartialEq, Eq)]
pub struct FileAttribute {
    pub name: String,
    pub text: Option<String>,
}

impl View for FileAttribute {
    type V = (Seq<char>, Option<Seq<char>>);

    open spec fn view(&self) -> (Seq<char>, Option<Seq<char>>) {
        (self.name@, opt_text(self.text))
    }
}

/// The record of a listed file: its content type, if known, and its
/// attributes.
#[derive(Debug, Clone, PartialEq, Eq)]
pub struct FileDetails {
    pub content_type: Option<String>,
    pub attributes: Vec<FileAttribute>,
}

/// The mathematical model of a [`FileDetails`].
pub struct FileDetailsView {
    pub content_type: Option<Seq<char>>,
    pub attributes: Seq<(Seq<char>, Option<Seq<char>>)>,
}

impl View for FileDetails {
    type V = FileDetailsView;

    open spec fn view(&self) -> FileDetailsView {
        FileDetailsView {
            content_type: opt_text(self.content_type),
            attributes: self.attributes@.map_values(|a: FileAttribute| a@),
        }
    }
}

/// The first attribute named `name`: `None` when there is none, else its
/// value as text, if any.
pub open spec fn attribute_lookup(attrs: Seq<(Seq<char>, Option<Seq<char>>)>, name: Seq<char>) -> Option<Option<Seq<char>>>
    decreases attrs.len(),
{
    if attrs.len() == 0 {
        None
    } else if attrs[0].0 == name {
        Some(attrs[0].1)
    } else {
        attribute_lookup(attrs.drop_first(), name)
    }
}

/// The text of attribute `name` of a file, when the file has the attribute
/// and the attribute has a text.
pub open spec fn str_attribute(d: FileDetailsView, name: Seq<char>) -> Option<Seq<char>> {
    match attribute_lookup(d.attributes, name) {
        Some(t) => t,
        None => None,
    }
}

/// The value of attribute `attr` of a file as text: none when the file does
/// not have the attribute, or when it has no text.
pub fn get_str_attr(fi: &FileDetails, attr: &str) -> (r: Option<String>)
    ensures
        opt_text(r) == str_attribute(fi@, attr@),
{
    let key = String::from_str(attr);
    let n = fi.attributes.len();
    let mut i: usize = 0;
    let ghost all = fi@.attributes;
    assert(all.skip(0) =~= all);
    while i < n
        invariant
            n == fi.attributes@.len(),
            all == fi@.attributes,
            key@ == attr@,
            i <= n,
            attribute_lookup(all, attr@) == attribute_lookup(all.skip(i as int), attr@),
        decreases n - i,
    {
        let a = &fi.attributes[i];
        proof {
            assert(all.skip(i as int)[0] == a@);
            assert(all.skip(i as int).drop_first() =~= all.skip(i + 1));
        }
        if a.name == key {
            return match &a.text {
                Some(t) => Some(t.clone()),
                None => None,
            };
        }
        i = i + 1;
    }
    None
}

/// The top-level type of a content type: what stands before the first `/`.
pub open spec fn top_level_type(s: Seq<char>) -> Seq<char>
    decreases s.len(),
{
    if s.len() == 0 || s[0] == '/' {
        Seq::empty()
    } else {
        seq![s[0]] + top_level_type(s.drop_first())
    }
}

/// The top-level type is the prefix up to the first `/`, or all of a
/// content type without one.
pub proof fn lemma_top_level_type(s: Seq<char>, i: int)
    requires
        0 <= i <= s.len(),
        forall|j: int| 0 <= j < i ==> s[j] != '/',
        i == s.len() || s[i] == '/',
    ensures
        top_level_type(s) == s.take(i),
    decreases i,
{
    if i > 0 {
        lemma_top_level_type(s.drop_first(), i - 1);
        assert(s.take(i) =~= seq![s[0]] + s.drop_first().take(i - 1));
    } else {
        assert(s.take(0) =~= Seq::<char>::empty());
    }
}

/// Whether a file's content type says it is an image.
pub open spec fn is_image_type(d: FileDetailsView) -> bool {
    match d.content_type {
        Some(ct) => top_level_type(ct) == "image"@,
        None => false,
    }
}

/// Whether a listed file is an image: it has a content type, and the part of
/// it before the first `/` is `image`.
pub fn is_image(fi: &FileDetails) -> (r: bool)
    ensures
        r == is_image_type(fi@),
{
    match &fi.content_type {
        None => false,
        Some(ct) => {
            let text = ct.as_str();
            let n = text.unicode_len();
            let mut i: usize = 0;
            while i < n && text.get_char(i) != '/'
                invariant
                    n == text@.len(),
                    i <= n,
                    forall|j: int| 0 <= j < i ==> text@[j] != '/',
                decreases n - i,
            {
                i = i + 1;
            }
            proof {
                lemma_top_level_type(text@, i as int);
            }
            let head = String::from_str(text.substring_char(0, i));
            head == String::from_str("image")
        },
    }
}

/// The path of a file's thumbnail, when the file has one that is not marked
/// stale.
pub open spec fn thumbnail_path(d: FileDetailsView) -> Option<Seq<char>> {
    match str_attribute(d, "thumbnail::is-valid"@) {
        None => None,
        Some(v) => if v == "FALSE"@ {
            None
        } else {
            str_attribute(d, "thumbnail::path"@)
        },
    }
}

/// The path of the thumbnail to show for a file: none when the file does not
/// say whether its thumbnail is valid, or says it is not.
pub fn retrieve_thumbnail(file_info: &FileDetails) -> (r: Option<String>)
    ensures
        opt_text(r) == thumbnail_path(file_info@),
{
    match get_str_attr(file_info, FILE_ATTRIBUTE_THUMBNAIL_IS_VALID) {
        Some(val) => {
            if val == String::from_str("FALSE") {
                return None;
            }
        },
        None => {
            return None;
        },
    }
    get_str_attr(file_info, FILE_ATTRIBUTE_THUMBNAIL_PATH)
}

/// What a wallpaper tile shows for a listed file: nothing for a file that is
/// not an image, its thumbnail when it has a valid one, else the image
/// itself, scaled.
#[derive(Debug, Clone, PartialEq, Eq)]
pub enum Preview {
    Nothing,
    Thumbnail(String),
    Render,
}

/// The mathematical model of a [`Preview`].
pub enum PreviewView {
    Nothing,
    Thumbnail(Seq<char>),
    Render,
}

impl View for Preview {
    type V = PreviewView;

    open spec fn view(&self) -> PreviewView {
        match self {
            Preview::Nothing => PreviewView::Nothing,
            Preview::Thumbnail(p) => PreviewView::Thumbnail(p@),
            Preview::Render => PreviewView::Render,
        }
    }
}

/// The preview of a listed file.
pub open spec fn preview_of(d: FileDetailsView) -> PreviewView {
    if !is_image_type(d) {
        PreviewView::Nothing
    } else {
        match thumbnail_path(d) {
            Some(p) => PreviewView::Thumbnail(p),
            None => PreviewView::Render,
        }
    }
}

/// Chooses what the tile of a listed file shows.
pub fn choose_preview(fi: &FileDetails) -> (r: Preview)
    ensures
        r@ == preview_of(fi@),
{
    if !is_image(fi) {
        return Preview::Nothing;
    }
    match retrieve_thumbnail(fi) {
        Some(path) => Preview::Thumbnail(path),
        None => Preview::Render,
    }
}

/// The names of `items`, each followed by a comma.
pub open spec fn comma_terminated(items: Seq<Seq<char>>) -> Seq<char>
    decreases items.len(),
{
    if items.len() == 0 {
        Seq::empty()
    } else {
        comma_terminated(items.drop_last()) + items.last() + ","@
    }
}

/// Joins attribute names into the comma-separated list that a file query
/// takes: each name followed by a comma, trailing whitespace trimmed (of
/// which there is none, since the list is empty or ends with a comma).
pub fn attrs_to_str(attributes: &[&str]) -> (r: String)
    ensures
        r@ == comma_terminated(attributes@.map_values(|a: &str| a@)),
{
    let ghost names = attributes@.map_values(|a: &str| a@);
    let mut acc = String::new();
    let n = attributes.len();
    let mut i: usize = 0;
    proof {
        reveal_strlit(",");
    }
    while i < n
        invariant
            n == attributes@.len(),
            names == attributes@.map_values(|a: &str| a@),
            i <= n,
            acc@ == comma_terminated(names.take(i as int)),
            i > 0 ==> acc@.len() > 0 && acc@.last() == ',',
            ","@ == seq![','],
        decreases n - i,
    {
        acc.append(attributes[i]);
        acc.append(",");
        proof {
            assert(names.take(i + 1).drop_last() =~= names.take(i as int));
            assert(names.take(i + 1).last() == attributes@[i as int]@);
        }
        i = i + 1;
    }
    proof {
        assert(names.take(n as int) =~= names);
    }
    let trimmed = trim_end_str(acc.as_str());
    proof {
        if trimmed@.len() < acc@.len() {
            assert(is_unicode_whitespace(acc@[acc@.len() - 1]));
        }
        assert(trimmed@ =~= acc@);
    }
    String::from_str(trimmed)
}

/// The directory to list: the first argument after the program's name, or
/// `~/Pictures` when there is none.
pub fn wallpaper_dir_arg(args: &Vec<String>) -> (r: String)
    ensures
        r@ == (if args@.len() > 1 {
            args@[1]@
        } else {
            "~/Pictures"@
        }),
{
    if args.len() > 1 {
        args[1].clone()
    } else {
        String::from_str("~/Pictures")
    }
}

} // verus!
