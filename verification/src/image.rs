//! Images: where they are, and how Codex is handed them.

use crate::json::{JsonValue, JsonView};
use crate::text::{
    after_prefix, before_first, characters, concat, concat3, decimal, decimal_text,
    first_position, first_segment, law_first_segment_ends_at_the_separator,
    law_prefix_is_taken_off_whole, lemma_at_first_position, same, strip_prefix,
};
use vstd::prelude::*;

verus! {

/// An image for Codex to look at.
#[derive(Debug)]
pub enum ImageInput {
    /// The image at this address.
    Url(String),
    /// The image itself, in base64.
    Data { media_type: String, data: String },
}

/// The mathematical image.
pub enum ImageView {
    Url(Seq<char>),
    Data { media_type: Seq<char>, data: Seq<char> },
}

impl View for ImageInput {
    type V = ImageView;

    open spec fn view(&self) -> ImageView {
        match *self {
            ImageInput::Url(url) => ImageView::Url(url@),
            ImageInput::Data { media_type, data } => ImageView::Data {
                media_type: media_type@,
                data: data@,
            },
        }
    }
}

impl Clone for ImageInput {
    fn clone(&self) -> (image: ImageInput)
        ensures
            image == *self,
    {
        match self {
            ImageInput::Url(url) => ImageInput::Url(url.clone()),
            ImageInput::Data { media_type, data } => ImageInput::Data {
                media_type: media_type.clone(),
                data: data.clone(),
            },
        }
    }
}

/// The values of a list of images.
pub open spec fn image_views(images: Seq<ImageInput>) -> Seq<ImageView> {
    images.map_values(|image: ImageInput| image@)
}

/// Whether a text ends with this suffix.
pub open spec fn ends_with(s: Seq<char>, suffix: Seq<char>) -> bool {
    s.len() >= suffix.len() && s.skip(s.len() - suffix.len()) == suffix
}

/// The image that an address stands for: a `data:` address in base64 holds the image itself.
pub open spec fn image_of_url(url: Seq<char>) -> ImageView {
    match after_prefix(url, "data:"@) {
        Some(rest) => {
            let header = before_first(rest, ',');
            if header.len() < rest.len() && ends_with(header, ";base64"@) {
                ImageView::Data {
                    media_type: header.take(header.len() - ";base64"@.len()),
                    data: rest.skip(header.len() as int + 1),
                }
            } else {
                ImageView::Url(url)
            }
        },
        None => ImageView::Url(url),
    }
}

/// The address of an image.
pub open spec fn image_url(image: ImageView) -> Seq<char> {
    match image {
        ImageView::Url(url) => url,
        ImageView::Data { media_type, data } => "data:"@ + media_type + ";base64,"@ + data,
    }
}

/// The image that an address stands for.
pub fn read_image_url(url: &str) -> (image: ImageInput)
    ensures
        image@ == image_of_url(url@),
{
    if let Some(rest) = strip_prefix(url, "data:") {
        let header = first_segment(rest, ',');
        proof {
            lemma_at_first_position(rest@, ',');
        }
        let length: usize = header.unicode_len();
        let total: usize = rest.unicode_len();
        let width: usize = ";base64".unicode_len();
        if length < total && length >= width {
            let end: usize = length - width;
            assert(header@.subrange(end as int, length as int) == header@.skip(end as int));
            if same(header.substring_char(end, length), ";base64") {
                assert(header@.subrange(0, end as int) == header@.take(end as int));
                assert(rest@.subrange(length + 1, total as int) == rest@.skip(length + 1));
                return ImageInput::Data {
                    media_type: header.substring_char(0, end).to_owned(),
                    data: rest.substring_char(length + 1, total).to_owned(),
                };
            }
        }
    }
    ImageInput::Url(url.to_owned())
}

/// Reading an address as an image and writing it again gives the address.
pub proof fn law_image_keeps_its_address(url: Seq<char>)
    ensures
        image_url(image_of_url(url)) == url,
{
    match after_prefix(url, "data:"@) {
        Some(rest) => {
            let header = before_first(rest, ',');
            lemma_at_first_position(rest, ',');
            if header.len() < rest.len() && ends_with(header, ";base64"@) {
                reveal_strlit(";base64");
                reveal_strlit(";base64,");
                let at = first_position(rest, ',');
                assert(";base64,"@ == ";base64"@ + seq![',']);
                assert(rest == rest.take(at) + seq![','] + rest.skip(at + 1));
                assert(header == header.take(header.len() - 7) + header.skip(header.len() - 7));
                assert(url == "data:"@ + rest);
                assert(image_url(image_of_url(url)) =~= url);
            }
        },
        None => {},
    }
}

impl ImageInput {
    /// The address of the image.
    pub fn url(&self) -> (url: String)
        ensures
            url@ == image_url(self@),
    {
        match self {
            ImageInput::Url(url) => url.clone(),
            ImageInput::Data { media_type, data } => {
                let mut url = concat3("data:", media_type.as_str(), ";base64,");
                url.append(data.as_str());
                url
            },
        }
    }

    /// The image as an input item of a turn.
    pub fn to_item(&self) -> (item: JsonValue)
        ensures
            item@ == image_item(self@),
    {
        JsonValue::object().with("type", JsonValue::from_text("image")).with(
            "url",
            JsonValue::Text(self.url()),
        )
    }
}

/// An image as an input item of a turn.
pub open spec fn image_item(image: ImageView) -> JsonView {
    JsonView::Object(
        map!["type"@ => JsonView::Text("image"@), "url"@ => JsonView::Text(image_url(image))],
    )
}

/// The file name extension for a media type.
pub open spec fn extension(media_type: Seq<char>) -> Seq<char> {
    if media_type == "image/jpeg"@ {
        "jpg"@
    } else if media_type == "image/gif"@ {
        "gif"@
    } else if media_type == "image/webp"@ {
        "webp"@
    } else {
        "png"@
    }
}

/// The name of the file for the image at this place.
pub open spec fn file_name(place: nat, media_type: Seq<char>) -> Seq<char> {
    decimal(place) + "."@ + extension(media_type)
}

/// What `codex exec` is told of the image at this place: its address, or the file in
/// `directory` that holds it.
pub open spec fn image_reference(image: ImageView, place: nat, directory: Seq<char>) -> Seq<char> {
    match image {
        ImageView::Url(url) => url,
        ImageView::Data { media_type, data } => directory + "/"@ + file_name(place, media_type),
    }
}

fn extension_for(media_type: &str) -> (name: &'static str)
    ensures
        name@ == extension(media_type@),
{
    if same(media_type, "image/jpeg") {
        "jpg"
    } else if same(media_type, "image/gif") {
        "gif"
    } else if same(media_type, "image/webp") {
        "webp"
    } else {
        "png"
    }
}

fn name_for(place: usize, media_type: &str) -> (name: String)
    ensures
        name@ == file_name(place as nat, media_type@),
{
    concat3(decimal_text(place as u64).as_str(), ".", extension_for(media_type))
}

/// What `codex exec` is told of the image at this place.
pub fn reference_for(image: &ImageInput, place: usize, directory: &str) -> (reference: String)
    ensures
        reference@ == image_reference(image@, place as nat, directory@),
{
    match image {
        ImageInput::Url(url) => url.clone(),
        ImageInput::Data { media_type, data } => {
            let name = name_for(place, media_type.as_str());
            concat(concat(directory, "/").as_str(), name.as_str())
        },
    }
}

/// The base64 digit for a number below sixty-four.
pub open spec fn digit64(v: int) -> char {
    if v < 26 {
        (v + 'A' as int) as char
    } else if v < 52 {
        (v - 26 + 'a' as int) as char
    } else if v < 62 {
        (v - 52 + '0' as int) as char
    } else if v == 62 {
        '+'
    } else {
        '/'
    }
}

/// Bytes in base64: four digits for three bytes, the last group filled up with `=`.
pub open spec fn encoded(bytes: Seq<u8>) -> Seq<char>
    decreases bytes.len(),
{
    if bytes.len() == 0 {
        Seq::empty()
    } else if bytes.len() == 1 {
        seq![digit64(bytes[0] as int / 4), digit64(bytes[0] as int % 4 * 16), '=', '=']
    } else if bytes.len() == 2 {
        seq![
            digit64(bytes[0] as int / 4),
            digit64(bytes[0] as int % 4 * 16 + bytes[1] as int / 16),
            digit64(bytes[1] as int % 16 * 4),
            '=',
        ]
    } else {
        seq![
            digit64(bytes[0] as int / 4),
            digit64(bytes[0] as int % 4 * 16 + bytes[1] as int / 16),
            digit64(bytes[1] as int % 16 * 4 + bytes[2] as int / 64),
            digit64(bytes[2] as int % 64),
        ] + encoded(bytes.skip(3))
    }
}

/// The number that a base64 digit stands for, in the standard alphabet or the one for
/// addresses.
pub open spec fn value64(c: char) -> Option<u8> {
    if 'A' <= c <= 'Z' {
        Some((c as int - 'A' as int) as u8)
    } else if 'a' <= c <= 'z' {
        Some((c as int - 'a' as int + 26) as u8)
    } else if '0' <= c <= '9' {
        Some((c as int - '0' as int + 52) as u8)
    } else if c == '+' || c == '-' {
        Some(62)
    } else if c == '/' || c == '_' {
        Some(63)
    } else {
        None
    }
}

/// The numbers that the base64 digits of a text stand for; every other character, be it a line
/// break or a filler, is passed over.
pub open spec fn digit_values(text: Seq<char>) -> Seq<u8>
    decreases text.len(),
{
    if text.len() == 0 {
        Seq::empty()
    } else {
        match value64(text.last()) {
            Some(v) => digit_values(text.drop_last()).push(v),
            None => digit_values(text.drop_last()),
        }
    }
}

/// The bytes that four digits make: three, and fewer where there are fewer digits. Bits that
/// fill no byte are dropped.
pub open spec fn group_bytes(v: Seq<u8>) -> Seq<u8> {
    let first = (v[0] * 4 + v[1] as int / 16) as u8;
    let second = (v[1] as int % 16 * 16 + v[2] as int / 4) as u8;
    let third = (v[2] as int % 4 * 64 + v[3]) as u8;
    if v.len() < 2 {
        Seq::empty()
    } else if v.len() == 2 {
        seq![first]
    } else if v.len() == 3 {
        seq![first, second]
    } else {
        seq![first, second, third]
    }
}

/// The bytes that a sequence of digits makes, four digits at a time.
pub open spec fn bytes_of(values: Seq<u8>) -> Seq<u8>
    decreases values.len(),
{
    if values.len() <= 4 {
        group_bytes(values)
    } else {
        group_bytes(values.take(4)) + bytes_of(values.skip(4))
    }
}

/// The bytes that a text in base64 stands for. Padding, line breaks and the choice of alphabet
/// make no difference.
pub open spec fn base64_bytes(text: Seq<char>) -> Seq<u8> {
    bytes_of(digit_values(text))
}

fn value_of(c: char) -> (value: Option<u8>)
    ensures
        value == value64(c),
        value matches Some(v) ==> v < 64,
{
    if 'A' <= c && c <= 'Z' {
        Some(c as u8 - 65)
    } else if 'a' <= c && c <= 'z' {
        Some(c as u8 - 97 + 26)
    } else if '0' <= c && c <= '9' {
        Some(c as u8 - 48 + 52)
    } else if c == '+' || c == '-' {
        Some(62)
    } else if c == '/' || c == '_' {
        Some(63)
    } else {
        None
    }
}

fn read_digits(text: &str) -> (values: Vec<u8>)
    ensures
        values@ == digit_values(text@),
        forall|i: int| 0 <= i < values.len() ==> #[trigger] values@[i] < 64,
{
    let chars = characters(text);
    let mut values: Vec<u8> = Vec::new();
    let mut at: usize = 0;
    while at < chars.len()
        invariant
            at <= chars.len(),
            values@ == digit_values(chars@.take(at as int)),
            forall|i: int| 0 <= i < values.len() ==> #[trigger] values@[i] < 64,
        decreases chars.len() - at,
    {
        assert(chars@.take(at + 1).drop_last() == chars@.take(at as int));
        if let Some(v) = value_of(chars[at]) {
            values.push(v);
        }
        at = at + 1;
    }
    assert(chars@.take(chars.len() as int) == text@);
    values
}

fn push_group(values: &Vec<u8>, at: usize, bytes: &mut Vec<u8>)
    requires
        at <= values.len(),
        forall|i: int| 0 <= i < values.len() ==> #[trigger] values@[i] < 64,
    ensures
        final(bytes)@ == old(bytes)@ + group_bytes(
            values@.subrange(
                at as int,
                if values.len() - at < 4 {
                    values.len() as int
                } else {
                    at + 4
                },
            ),
        ),
{
    let left: usize = values.len() - at;
    if left >= 2 {
        let (v0, v1): (u8, u8) = (values[at], values[at + 1]);
        bytes.push(v0 * 4 + v1 / 16);
        if left >= 3 {
            let v2: u8 = values[at + 2];
            bytes.push(v1 % 16 * 16 + v2 / 4);
            if left >= 4 {
                let v3: u8 = values[at + 3];
                bytes.push(v2 % 4 * 64 + v3);
            }
        }
    }
}

/// The bytes that a text in base64 stands for: none where it holds no digits.
pub fn read_base64(text: &str) -> (bytes: Vec<u8>)
    ensures
        bytes@ == base64_bytes(text@),
{
    let values = read_digits(text);
    let mut bytes: Vec<u8> = Vec::new();
    let mut at: usize = 0;
    assert(values@.skip(0) == values@);
    assert(bytes@ + bytes_of(values@) == bytes_of(values@));
    while values.len() - at > 4
        invariant
            at <= values.len(),
            forall|i: int| 0 <= i < values.len() ==> #[trigger] values@[i] < 64,
            bytes@ + bytes_of(values@.skip(at as int)) == bytes_of(values@),
        decreases values.len() - at,
    {
        let ghost left = values@.skip(at as int);
        let ghost before = bytes@;
        push_group(&values, at, &mut bytes);
        proof {
            assert(left.take(4) == values@.subrange(at as int, at + 4));
            assert(left.skip(4) == values@.skip(at + 4));
            assert(before + (group_bytes(left.take(4)) + bytes_of(left.skip(4))) == bytes@
                + bytes_of(left.skip(4)));
        }
        at = at + 4;
    }
    push_group(&values, at, &mut bytes);
    assert(values@.skip(at as int) == values@.subrange(at as int, values.len() as int));
    bytes
}

proof fn lemma_value_of_digit(v: int)
    requires
        0 <= v < 64,
    ensures
        value64(digit64(v)) == Some(v as u8),
{
}

proof fn lemma_digit_values_of_parts(one: Seq<char>, other: Seq<char>)
    ensures
        digit_values(one + other) == digit_values(one) + digit_values(other),
    decreases other.len(),
{
    if other.len() == 0 {
        assert(one + other == one);
    } else {
        lemma_digit_values_of_parts(one, other.drop_last());
        assert((one + other).drop_last() == one + other.drop_last());
        assert(digit_values(one + other) =~= digit_values(one) + digit_values(other));
    }
}

proof fn lemma_four_values(a: char, b: char, c: char, d: char)
    ensures
        digit_values(seq![a, b, c, d]) == digit_values(seq![a]) + digit_values(seq![b])
            + digit_values(seq![c]) + digit_values(seq![d]),
{
    lemma_digit_values_of_parts(seq![a, b, c], seq![d]);
    lemma_digit_values_of_parts(seq![a, b], seq![c]);
    lemma_digit_values_of_parts(seq![a], seq![b]);
    assert(seq![a, b, c, d] == seq![a, b, c] + seq![d]);
    assert(seq![a, b, c] == seq![a, b] + seq![c]);
    assert(seq![a, b] == seq![a] + seq![b]);
}

proof fn lemma_one_value(c: char)
    ensures
        value64(c) is Some ==> digit_values(seq![c]) == seq![value64(c)->0],
        value64(c) is None ==> digit_values(seq![c]) == Seq::<u8>::empty(),
{
    assert(seq![c].drop_last() == Seq::<char>::empty());
    assert(digit_values(Seq::<char>::empty()) == Seq::<u8>::empty());
    assert(Seq::<u8>::empty().push(value64(c)->0) == seq![value64(c)->0]);
}

proof fn lemma_digit_reads_back(v: int)
    requires
        0 <= v < 64,
    ensures
        digit_values(seq![digit64(v)]) == seq![v as u8],
{
    lemma_value_of_digit(v);
    lemma_one_value(digit64(v));
}

#[verifier::spinoff_prover]
proof fn lemma_three_bytes_read_back(b0: u8, b1: u8, b2: u8)
    ensures
        ({
            let values = digit_values(
                seq![
                    digit64(b0 as int / 4),
                    digit64(b0 as int % 4 * 16 + b1 as int / 16),
                    digit64(b1 as int % 16 * 4 + b2 as int / 64),
                    digit64(b2 as int % 64),
                ],
            );
            values.len() == 4 && group_bytes(values) == seq![b0, b1, b2]
        }),
{
    let (v0, v1) = (b0 as int / 4, b0 as int % 4 * 16 + b1 as int / 16);
    let (v2, v3) = (b1 as int % 16 * 4 + b2 as int / 64, b2 as int % 64);
    lemma_four_values(digit64(v0), digit64(v1), digit64(v2), digit64(v3));
    lemma_digit_reads_back(v0);
    lemma_digit_reads_back(v1);
    lemma_digit_reads_back(v2);
    lemma_digit_reads_back(v3);
}

proof fn lemma_two_bytes_read_back(b0: u8, b1: u8)
    ensures
        ({
            let values = digit_values(
                seq![
                    digit64(b0 as int / 4),
                    digit64(b0 as int % 4 * 16 + b1 as int / 16),
                    digit64(b1 as int % 16 * 4),
                    '=',
                ],
            );
            values.len() == 3 && group_bytes(values) == seq![b0, b1]
        }),
{
    let (v0, v1) = (b0 as int / 4, b0 as int % 4 * 16 + b1 as int / 16);
    let v2 = b1 as int % 16 * 4;
    lemma_four_values(digit64(v0), digit64(v1), digit64(v2), '=');
    lemma_digit_reads_back(v0);
    lemma_digit_reads_back(v1);
    lemma_digit_reads_back(v2);
    lemma_one_value('=');
}

proof fn lemma_one_byte_reads_back(b0: u8)
    ensures
        ({
            let values = digit_values(
                seq![digit64(b0 as int / 4), digit64(b0 as int % 4 * 16), '=', '='],
            );
            values.len() == 2 && group_bytes(values) == seq![b0]
        }),
{
    let (v0, v1) = (b0 as int / 4, b0 as int % 4 * 16);
    lemma_four_values(digit64(v0), digit64(v1), '=', '=');
    lemma_digit_reads_back(v0);
    lemma_digit_reads_back(v1);
    lemma_one_value('=');
}

/// Reading bytes back from base64 gives the bytes.
#[verifier::spinoff_prover]
pub proof fn law_base64_reads_back(bytes: Seq<u8>)
    ensures
        base64_bytes(encoded(bytes)) == bytes,
    decreases bytes.len(),
{
    if bytes.len() == 0 {
        assert(base64_bytes(encoded(bytes)) =~= bytes);
    } else if bytes.len() == 1 {
        lemma_one_byte_reads_back(bytes[0]);
        assert(seq![bytes[0]] =~= bytes);
    } else if bytes.len() == 2 {
        lemma_two_bytes_read_back(bytes[0], bytes[1]);
        assert(seq![bytes[0], bytes[1]] =~= bytes);
    } else {
        let head = encoded(bytes).take(4);
        let rest = bytes.skip(3);
        let (front, back) = (digit_values(head), digit_values(encoded(rest)));
        law_base64_reads_back(rest);
        lemma_three_bytes_read_back(bytes[0], bytes[1], bytes[2]);
        assert(head =~= seq![
            digit64(bytes[0] as int / 4),
            digit64(bytes[0] as int % 4 * 16 + bytes[1] as int / 16),
            digit64(bytes[1] as int % 16 * 4 + bytes[2] as int / 64),
            digit64(bytes[2] as int % 64),
        ]);
        assert(encoded(bytes) =~= head + encoded(rest));
        lemma_digit_values_of_parts(head, encoded(rest));
        assert((front + back).take(4) =~= front);
        assert((front + back).skip(4) =~= back);
        if back.len() == 0 {
            assert(front + back =~= front);
            assert(bytes_of(back) =~= Seq::<u8>::empty());
        }
        assert(group_bytes(front) + rest =~= bytes);
    }
}

/// A file that holds an image.
#[derive(Debug)]
pub struct ImageFile {
    pub name: String,
    pub bytes: Vec<u8>,
}

/// The files that images need: name, and content in base64.
pub open spec fn needed_files(images: Seq<ImageView>) -> Seq<(Seq<char>, Seq<char>)>
    decreases images.len(),
{
    if images.len() == 0 {
        Seq::empty()
    } else {
        let before = needed_files(images.drop_last());
        match images.last() {
            ImageView::Url(_) => before,
            ImageView::Data { media_type, data } => before.push(
                (file_name((images.len() - 1) as nat, media_type), data),
            ),
        }
    }
}

/// Whether the files hold what is needed.
pub open spec fn files_hold(files: Seq<ImageFile>, needed: Seq<(Seq<char>, Seq<char>)>) -> bool {
    &&& files.len() == needed.len()
    &&& forall|i: int|
        0 <= i < files.len() ==> (#[trigger] files[i]).name@ == needed[i].0 && files[i].bytes@
            == base64_bytes(needed[i].1)
}

/// The files that images need before `codex exec` can be told of them.
pub fn image_files(images: &Vec<ImageInput>) -> (files: Vec<ImageFile>)
    ensures
        files_hold(files@, needed_files(image_views(images@))),
{
    let ghost views = image_views(images@);
    let mut files: Vec<ImageFile> = Vec::new();
    let mut at: usize = 0;
    while at < images.len()
        invariant
            at <= images.len(),
            views == image_views(images@),
            files_hold(files@, needed_files(views.take(at as int))),
        decreases images.len() - at,
    {
        assert(views.take(at + 1).drop_last() == views.take(at as int));
        assert(views.take(at + 1).last() == images@[at as int]@);
        match &images[at] {
            ImageInput::Url(_) => {},
            ImageInput::Data { media_type, data } => {
                files.push(
                    ImageFile {
                        name: name_for(at, media_type.as_str()),
                        bytes: read_base64(data.as_str()),
                    },
                );
            },
        }
        at = at + 1;
    }
    assert(views.take(views.len() as int) == views);
    files
}

/// An address with any other scheme stands for what is there; a `data:` address in base64 stands
/// for the data that it holds, under its media type.
pub proof fn law_addresses_stand_for_their_image(
    url: Seq<char>,
    media_type: Seq<char>,
    data: Seq<char>,
)
    requires
        !"data:"@.is_prefix_of(url),
        !media_type.contains(','),
    ensures
        image_of_url(url) == ImageView::Url(url),
        image_of_url("data:"@ + media_type + ";base64,"@ + data) == (ImageView::Data {
            media_type,
            data,
        }),
{
    let whole = "data:"@ + media_type + ";base64,"@ + data;
    let rest = media_type + ";base64,"@ + data;
    reveal_strlit(";base64,");
    reveal_strlit(";base64");
    assert(whole =~= "data:"@ + rest);
    law_prefix_is_taken_off_whole(whole, "data:"@, rest);
    let tail = law_first_segment_ends_at_the_separator(rest, ',');
    let header = before_first(rest, ',');
    let full = media_type + ";base64"@;
    assert(rest[full.len() as int] == ',');
    assert forall|i: int| 0 <= i < full.len() implies rest[i] != ',' by {
        if i < media_type.len() {
            assert(rest[i] == media_type[i]);
            assert(media_type.contains(media_type[i]));
        } else {
            assert(rest[i] == ";base64,"@[i - media_type.len()]);
        }
    }
    if header.len() < full.len() {
        assert(rest[header.len() as int] == tail[0]);
    }
    if header.len() > full.len() {
        assert(header[full.len() as int] == rest[full.len() as int]);
        assert(header.contains(','));
    }
    assert(header.len() == full.len());
    assert(header =~= full) by {
        assert forall|i: int| 0 <= i < header.len() implies header[i] == full[i] by {
            assert(rest[i] == header[i]);
        }
    }
    assert(header.skip(header.len() - 7) =~= ";base64"@);
    assert(header.take(header.len() - 7) =~= media_type);
    assert(rest.skip(header.len() as int + 1) =~= data);
}

/// The address of an image at an address is that address; that of data names its media type and
/// holds the data as it stands.
pub proof fn law_images_have_their_address(url: Seq<char>, media_type: Seq<char>, data: Seq<char>)
    ensures
        image_url(ImageView::Url(url)) == url,
        image_url(ImageView::Data { media_type, data }) == "data:"@ + media_type + ";base64,"@
            + data,
{
}

/// The file of an image is named by its place and the extension of its media type, so that two
/// images of one turn have two files; an image at an address is told by its address.
pub proof fn law_image_files_are_named_by_their_place(
    media_type: Seq<char>,
    data: Seq<char>,
    url: Seq<char>,
    place: nat,
    directory: Seq<char>,
)
    ensures
        image_reference(ImageView::Url(url), place, directory) == url,
        image_reference(ImageView::Data { media_type, data }, place, directory) == directory + "/"@
            + file_name(place, media_type),
        media_type == "image/jpeg"@ ==> file_name(place, media_type) == decimal(place) + "."@
            + "jpg"@,
        media_type == "image/gif"@ ==> file_name(place, media_type) == decimal(place) + "."@
            + "gif"@,
        media_type == "image/webp"@ ==> file_name(place, media_type) == decimal(place) + "."@
            + "webp"@,
        media_type != "image/jpeg"@ && media_type != "image/gif"@ && media_type != "image/webp"@
            ==> file_name(place, media_type) == decimal(place) + "."@ + "png"@,
{
    reveal_strlit("image/jpeg");
    reveal_strlit("image/gif");
    reveal_strlit("image/webp");
    assert("image/jpeg"@.len() == 10 && "image/gif"@.len() == 9 && "image/webp"@.len() == 10);
    assert("image/jpeg"@[6] == 'j' && "image/webp"@[6] == 'w');
}

/// Every image that is handed over itself has its file, named by its place, with its data; an
/// image at an address has none.
pub proof fn law_every_image_has_its_file(images: Seq<ImageView>, more: ImageView)
    ensures
        needed_files(Seq::empty()).len() == 0,
        more is Url ==> needed_files(images.push(more)) == needed_files(images),
        more matches ImageView::Data { media_type, data } ==> needed_files(images.push(more))
            == needed_files(images).push((file_name(images.len(), media_type), data)),
{
    assert(images.push(more).drop_last() =~= images);
}

/// The digits of base64: the capitals count from 0, the small letters from 26 and the numerals
/// from 52; plus and minus are 62, slash and underscore 63; any other character is no digit.
pub proof fn law_base64_digits(c: char)
    ensures
        'A' <= c <= 'Z' ==> value64(c) is Some && value64(c)->0 == c as int - 65,
        'a' <= c <= 'z' ==> value64(c) is Some && value64(c)->0 == c as int - 97 + 26,
        '0' <= c <= '9' ==> value64(c) is Some && value64(c)->0 == c as int - 48 + 52,
        c == '+' || c == '-' ==> value64(c) == Some(62u8),
        c == '/' || c == '_' ==> value64(c) == Some(63u8),
        c == '=' || c == '\n' || c == '\r' || c == ' ' ==> value64(c) is None,
{
}

/// Four digits make three bytes: the same number, written to the base 64 and to the base 256.
pub proof fn law_four_digits_make_three_bytes(digits: Seq<u8>)
    requires
        digits.len() == 4,
        digits[0] < 64,
        digits[1] < 64,
        digits[2] < 64,
        digits[3] < 64,
    ensures
        bytes_of(digits).len() == 3,
        bytes_of(digits)[0] * 65536 + bytes_of(digits)[1] * 256 + bytes_of(digits)[2] == digits[0]
            * 262144 + digits[1] * 4096 + digits[2] * 64 + digits[3],
{
}

/// Two texts in base64, the first of whole groups, are read one after the other; what is no digit
/// makes no difference.
pub proof fn law_base64_is_read_in_order(one: Seq<char>, other: Seq<char>, filler: Seq<char>)
    requires
        digit_values(one).len() % 4 == 0,
        forall|i: int| 0 <= i < filler.len() ==> value64(#[trigger] filler[i]) is None,
    ensures
        base64_bytes(one + other) == base64_bytes(one) + base64_bytes(other),
        base64_bytes(one + filler) == base64_bytes(one),
        base64_bytes(other + filler) == base64_bytes(other),
{
    lemma_digit_values_of_parts(one, other);
    lemma_digit_values_of_parts(one, filler);
    lemma_digit_values_of_parts(other, filler);
    lemma_filler_is_passed_over(filler);
    assert(digit_values(one) + digit_values(filler) =~= digit_values(one));
    assert(digit_values(other) + digit_values(filler) =~= digit_values(other));
    lemma_bytes_of_parts(digit_values(one), digit_values(other));
}

proof fn lemma_filler_is_passed_over(filler: Seq<char>)
    requires
        forall|i: int| 0 <= i < filler.len() ==> value64(#[trigger] filler[i]) is None,
    ensures
        digit_values(filler) == Seq::<u8>::empty(),
    decreases filler.len(),
{
    if filler.len() > 0 {
        let earlier = filler.drop_last();
        assert forall|i: int| 0 <= i < earlier.len() implies value64(
            #[trigger] earlier[i],
        ) is None by {
            assert(earlier[i] == filler[i]);
        }
        lemma_filler_is_passed_over(earlier);
        assert(value64(filler[filler.len() - 1]) is None);
    }
}

proof fn lemma_bytes_of_parts(one: Seq<u8>, other: Seq<u8>)
    requires
        one.len() % 4 == 0,
    ensures
        bytes_of(one + other) == bytes_of(one) + bytes_of(other),
    decreases one.len(),
{
    if one.len() == 0 {
        assert(one + other =~= other);
        assert(bytes_of(one) =~= Seq::<u8>::empty());
        assert(bytes_of(one) + bytes_of(other) =~= bytes_of(other));
    } else {
        assert((one + other).take(4) =~= one.take(4));
        assert((one + other).skip(4) =~= one.skip(4) + other);
        lemma_bytes_of_parts(one.skip(4), other);
        if one.len() == 4 {
            assert(one.skip(4) =~= Seq::<u8>::empty());
            assert(one.take(4) =~= one);
            assert(bytes_of(one.skip(4)) =~= Seq::<u8>::empty());
            assert(one.skip(4) + other =~= other);
            if other.len() == 0 {
                assert(one + other =~= one);
                assert(bytes_of(other) =~= Seq::<u8>::empty());
            }
        }
        assert(bytes_of(one + other) =~= bytes_of(one) + bytes_of(other));
    }
}

/// The item for an image names it by its address.
pub proof fn law_image_item_names_the_address(image: ImageView)
    ensures
        image_item(image) is Object,
        image_item(image)->Object_0["type"@] == JsonView::Text("image"@),
        image_item(image)->Object_0["url"@] == JsonView::Text(image_url(image)),
{
    lemma_item_names();
}

proof fn lemma_item_names()
    ensures
        "type"@ != "url"@,
{
    reveal_strlit("type");
    reveal_strlit("url");
    assert("type"@.len() != "url"@.len());
}

/// An image is at its address, or is its data under its media type; a list of images has them in
/// order.
pub proof fn law_images_are_what_they_hold(
    url: String,
    media_type: String,
    data: String,
    images: Seq<ImageInput>,
    at: int,
)
    requires
        0 <= at < images.len(),
    ensures
        ImageInput::Url(url)@ == ImageView::Url(url@),
        (ImageInput::Data { media_type, data })@ == (ImageView::Data {
            media_type: media_type@,
            data: data@,
        }),
        image_views(images).len() == images.len(),
        image_views(images)[at] == images[at]@,
{
}

/// Fewer than four digits make fewer bytes: three make two, two make one, and the bits that are
/// left over are dropped.
pub proof fn law_last_digits_make_fewer_bytes(digits: Seq<u8>)
    requires
        digits.len() < 4,
        forall|i: int| 0 <= i < digits.len() ==> #[trigger] digits[i] < 64,
    ensures
        digits.len() < 2 ==> bytes_of(digits).len() == 0,
        digits.len() == 2 ==> bytes_of(digits).len() == 1 && bytes_of(digits)[0] == (digits[0] * 64
            + digits[1]) / 16,
        digits.len() == 3 ==> bytes_of(digits).len() == 2 && bytes_of(digits)[0] * 256 + bytes_of(
            digits,
        )[1] == (digits[0] * 4096 + digits[1] * 64 + digits[2]) / 4,
{
}

/// A `data:` address without a comma holds no data, and stands for itself.
pub proof fn law_address_without_data_stands_for_itself(url: Seq<char>)
    requires
        !url.contains(','),
    ensures
        image_of_url(url) == ImageView::Url(url),
{
    if let Some(rest) = after_prefix(url, "data:"@) {
        let tail = law_first_segment_ends_at_the_separator(rest, ',');
        let header = before_first(rest, ',');
        if header.len() < rest.len() {
            assert(rest[header.len() as int] == tail[0]);
            assert(url["data:"@.len() + header.len() as int] == ',');
            assert(url.contains(','));
        }
    }
}

} // verus!
