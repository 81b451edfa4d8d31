use vstd::prelude::*;

use crate::error::Error;
use crate::opt_view;

verus! {

/// A new profile photo: a local image file and an optional square crop box.
#[derive(Debug, Clone, PartialEq, Eq)]
pub struct Photo {
    pub image: String,
    pub crop_x: Option<u64>,
    pub crop_y: Option<u64>,
    pub crop_w: Option<u64>,
}

/// What a part of a multipart body carries.
pub enum PartModel {
    File { name: Seq<char>, file_name: Seq<char>, mime: Seq<char> },
    Text { name: Seq<char>, value: Seq<char> },
}

/// One part of a multipart body. The bytes of a file part are read from the image
/// file when the request is sent.
#[derive(Debug, Clone, PartialEq, Eq)]
pub enum FormPart {
    File { name: String, file_name: String, mime: String },
    Text { name: String, value: String },
}

impl View for FormPart {
    type V = PartModel;

    open spec fn view(&self) -> PartModel {
        match self {
            FormPart::File { name, file_name, mime } => PartModel::File {
                name: name@,
                file_name: file_name@,
                mime: mime@,
            },
            FormPart::Text { name, value } => PartModel::Text { name: name@, value: value@ },
        }
    }
}

/// A multipart body, as the list of its parts in order.
#[derive(Debug, Clone, PartialEq, Eq)]
pub struct MultipartForm {
    pub parts: Vec<FormPart>,
}

impl View for MultipartForm {
    type V = Seq<PartModel>;

    open spec fn view(&self) -> Seq<PartModel> {
        self.parts@.map_values(|p: FormPart| p@)
    }
}

impl MultipartForm {
    pub fn new() -> (r: MultipartForm)
        ensures
            r@ == Seq::<PartModel>::empty(),
    {
        let r = MultipartForm { parts: Vec::new() };
        assert(r@ =~= Seq::<PartModel>::empty());
        r
    }

    /// Appends a part.
    pub fn part(self, p: FormPart) -> (r: MultipartForm)
        ensures
            r@ == self@.push(p@),
    {
        let ghost old_view = self@;
        let mut parts = self.parts;
        parts.push(p);
        let r = MultipartForm { parts };
        assert(r@ =~= old_view.push(p@));
        r
    }
}

pub open spec fn digit_char(d: nat) -> char {
    if d == 0 { '0' } else if d == 1 { '1' } else if d == 2 { '2' } else if d == 3 { '3' }
    else if d == 4 { '4' } else if d == 5 { '5' } else if d == 6 { '6' } else if d == 7 { '7' }
    else if d == 8 { '8' } else { '9' }
}

/// The decimal digits of `n`, most significant first, with no leading zero.
pub open spec fn decimal(n: nat) -> Seq<char>
    decreases n,
{
    if n < 10 {
        seq![digit_char(n)]
    } else {
        decimal(n / 10).push(digit_char(n % 10))
    }
}

fn digit_str(d: u64) -> (r: &'static str)
    requires
        d < 10,
    ensures
        r@ == seq![digit_char(d as nat)],
{
    proof {
        reveal_strlit("0");
        reveal_strlit("1");
        reveal_strlit("2");
        reveal_strlit("3");
        reveal_strlit("4");
        reveal_strlit("5");
        reveal_strlit("6");
        reveal_strlit("7");
        reveal_strlit("8");
        reveal_strlit("9");
    }
    let r = if d == 0 { "0" } else if d == 1 { "1" } else if d == 2 { "2" } else if d == 3 { "3" }
    else if d == 4 { "4" } else if d == 5 { "5" } else if d == 6 { "6" } else if d == 7 { "7" }
    else if d == 8 { "8" } else { "9" };
    assert(r@ =~= seq![digit_char(d as nat)]);
    r
}

/// Writes `n` in decimal.
pub fn decimal_string(n: u64) -> (r: String)
    ensures
        r@ == decimal(n as nat),
    decreases n,
{
    if n < 10 {
        String::from_str(digit_str(n))
    } else {
        let mut s = decimal_string(n / 10);
        s.append(digit_str(n % 10));
        s
    }
}

/// A text part when the value is present, nothing otherwise.
pub open spec fn text_part_if_set(name: Seq<char>, value: Option<u64>) -> Seq<PartModel> {
    match value {
        Some(v) => seq![PartModel::Text { name, value: decimal(v as nat) }],
        None => Seq::empty(),
    }
}

/// The crop parts of a photo upload: one for each coordinate that is given.
pub open spec fn crop_parts(p: Photo) -> Seq<PartModel> {
    text_part_if_set("crop_x"@, p.crop_x) + text_part_if_set("crop_y"@, p.crop_y)
        + text_part_if_set("crop_w"@, p.crop_w)
}

/// The content type declared for an image with the given extension.
pub open spec fn image_mime(extension: Seq<char>) -> Seq<char> {
    "image/"@ + extension
}

/// The image part of an upload, from the file name and extension of its path.
pub open spec fn image_part_spec(file_name: Option<Seq<char>>, extension: Option<Seq<char>>) -> Result<PartModel, Error> {
    match file_name {
        None => Err(Error::MissingFileName),
        Some(f) => match extension {
            None => Err(Error::MissingExtension),
            Some(e) => Ok(PartModel::File { name: "image"@, file_name: f, mime: image_mime(e) }),
        },
    }
}

/// The final component of a path, as `Path::file_name` gives it.
pub uninterp spec fn path_file_name(p: Seq<char>) -> Option<Seq<char>>;

/// The extension of a path, as `Path::extension` gives it.
pub uninterp spec fn path_extension(p: Seq<char>) -> Option<Seq<char>>;

/// Relies on std's Path::file_name: the last component of the path, if it is a
/// normal one; it depends on the path alone.
#[verifier::external_body]
fn file_name_of(path: &str) -> (r: Option<String>)
    ensures
        opt_view(r) == path_file_name(path@),
{
    std::path::Path::new(path).file_name().map(|f| f.to_string_lossy().into_owned())
}

/// Relies on std's Path::extension: what follows the last dot of the file name,
/// if any; it depends on the path alone.
#[verifier::external_body]
fn extension_of(path: &str) -> (r: Option<String>)
    ensures
        opt_view(r) == path_extension(path@),
{
    std::path::Path::new(path).extension().map(|e| e.to_string_lossy().into_owned())
}

fn push_crop(form: MultipartForm, name: &str, value: Option<u64>) -> (r: MultipartForm)
    ensures
        r@ == form@ + text_part_if_set(name@, value),
{
    match value {
        Some(v) => {
            let ghost before = form@;
            let r = form.part(FormPart::Text { name: name.to_owned(), value: decimal_string(v) });
            assert(r@ =~= before + text_part_if_set(name@, value));
            r
        },
        None => {
            assert(form@ + text_part_if_set(name@, value) =~= form@);
            form
        },
    }
}

/// The image part for a file of the given name and extension.
pub fn image_part(file_name: Option<String>, extension: Option<String>) -> (r: Result<FormPart, Error>)
    ensures
        match r {
            Ok(p) => image_part_spec(opt_view(file_name), opt_view(extension)) == Ok::<PartModel, Error>(p@),
            Err(e) => image_part_spec(opt_view(file_name), opt_view(extension)) == Err::<PartModel, Error>(e),
        },
{
    proof {
        reveal_strlit("image");
    }
    match file_name {
        None => Err(Error::MissingFileName),
        Some(f) => match extension {
            None => Err(Error::MissingExtension),
            Some(e) => {
                let mime = String::from_str("image/").concat(e.as_str());
                Ok(FormPart::File { name: String::from_str("image"), file_name: f, mime })
            },
        },
    }
}

impl Photo {
    /// Adds a text part for each crop coordinate that is given, and none for the others.
    pub fn update_form(&self, form: MultipartForm) -> (r: MultipartForm)
        ensures
            r@ == form@ + crop_parts(*self),
    {
        let ghost start = form@;
        let form = push_crop(form, "crop_x", self.crop_x);
        let form = push_crop(form, "crop_y", self.crop_y);
        let form = push_crop(form, "crop_w", self.crop_w);
        assert(form@ =~= start + crop_parts(*self));
        form
    }

    /// The whole upload body: the image part, then the crop parts.
    pub fn form(&self) -> (r: Result<MultipartForm, Error>)
        ensures
            match image_part_spec(path_file_name(self.image@), path_extension(self.image@)) {
                Ok(p) => r is Ok && r->Ok_0@ == seq![p] + crop_parts(*self),
                Err(e) => r == Err::<MultipartForm, Error>(e),
            },
    {
        let file_name = file_name_of(self.image.as_str());
        let extension = extension_of(self.image.as_str());
        match image_part(file_name, extension) {
            Ok(p) => {
                let form = MultipartForm::new().part(p);
                Ok(self.update_form(form))
            },
            Err(e) => Err(e),
        }
    }
}

} // verus!
