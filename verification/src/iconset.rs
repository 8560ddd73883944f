//! The icon sizes of an Apple app icon set and its `Contents.json` description.
use vstd::prelude::*;
use crate::text::{decimal, decimal_string, digit_char, push_char};

verus! {

/// One image of the icon set.
#[derive(Debug, Clone, PartialEq, Eq)]
pub struct IconSpec {
    pub idiom: String,
    pub size: String,
    pub scale: String,
    pub pixels: u32,
    pub filename: String,
}

/// The mathematical value of an [`IconSpec`].
pub struct IconSpecView {
    pub idiom: Seq<char>,
    pub size: Seq<char>,
    pub scale: Seq<char>,
    pub pixels: nat,
    pub filename: Seq<char>,
}

impl View for IconSpec {
    type V = IconSpecView;

    open spec fn view(&self) -> IconSpecView {
        IconSpecView {
            idiom: self.idiom@,
            size: self.size@,
            scale: self.scale@,
            pixels: self.pixels as nat,
            filename: self.filename@,
        }
    }
}

/// Point size written with at most one decimal, from a size in tenths of a point:
/// `20` for 20pt, `83.5` for 83.5pt.
pub open spec fn points_label(tenths: nat) -> Seq<char> {
    if tenths % 10 == 0 {
        decimal(tenths / 10)
    } else {
        decimal(tenths / 10) + seq!['.', digit_char(tenths % 10)]
    }
}

/// Pixel edge of an image of `tenths / 10` points at `scale`, rounded half
/// up, and capped at `u32::MAX` as a float-to-integer cast saturates.
pub open spec fn rounded_pixels(tenths: nat, scale: nat) -> nat {
    let exact = (tenths * scale + 5) / 10;
    if exact > u32::MAX {
        u32::MAX as nat
    } else {
        exact
    }
}

/// File name of an icon image: `icon-<idiom>-<points>pt@<scale>x.png`.
pub open spec fn icon_filename(idiom: Seq<char>, label: Seq<char>, scale_text: Seq<char>) -> Seq<
    char,
> {
    "icon-"@ + idiom + "-"@ + label + "pt@"@ + scale_text + "x.png"@
}

/// The image of `tenths / 10` points at `scale` for `idiom`.
pub open spec fn spec_for(idiom: Seq<char>, tenths: nat, scale: nat) -> IconSpecView {
    let label = points_label(tenths);
    IconSpecView {
        idiom: idiom,
        size: label + "x"@ + label,
        scale: decimal(scale) + "x"@,
        pixels: rounded_pixels(tenths, scale),
        filename: icon_filename(idiom, label, decimal(scale)),
    }
}

/// The App Store marketing image.
pub open spec fn marketing_spec() -> IconSpecView {
    IconSpecView {
        idiom: "ios-marketing"@,
        size: "1024x1024"@,
        scale: "1x"@,
        pixels: 1024,
        filename: "icon-ios-marketing-1024pt@1x.png"@,
    }
}

/// Every point size in `points` (tenths) at two consecutive scales starting at `first_scale`.
pub open spec fn grid(idiom: Seq<char>, points: Seq<u32>, first_scale: nat) -> Seq<IconSpecView> {
    Seq::new(
        points.len() * 2,
        |k: int| spec_for(idiom, points[k / 2] as nat, first_scale + (k % 2) as nat),
    )
}

/// iPhone point sizes, in tenths of a point.
pub open spec fn iphone_points() -> Seq<u32> {
    seq![200u32, 290, 400, 600]
}

/// iPad point sizes, in tenths of a point (83.5pt comes separately).
pub open spec fn ipad_points() -> Seq<u32> {
    seq![200u32, 290, 400, 760]
}

/// Mac point sizes, in tenths of a point.
pub open spec fn mac_points() -> Seq<u32> {
    seq![160u32, 320, 1280, 2560, 5120]
}

/// The images of an Apple app icon set, in order.
pub open spec fn apple_icon_specs() -> Seq<IconSpecView> {
    grid("iphone"@, iphone_points(), 2) + grid("ipad"@, ipad_points(), 1) + seq![
        spec_for("ipad"@, 835, 2),
    ] + grid("mac"@, mac_points(), 1) + seq![marketing_spec()]
}

/// The views of a list of specs.
pub open spec fn spec_views(specs: Seq<IconSpec>) -> Seq<IconSpecView> {
    specs.map_values(|s: IconSpec| s@)
}

/// The point size label for a size in tenths of a point.
pub fn format_points(tenths: u32) -> (label: String)
    ensures
        label@ == points_label(tenths as nat),
{
    let whole = decimal_string((tenths / 10) as u64);
    if tenths % 10 == 0 {
        whole
    } else {
        let mut label = whole;
        push_char(&mut label, '.');
        let d = tenths % 10;
        let c = if d == 1 {
            '1'
        } else if d == 2 {
            '2'
        } else if d == 3 {
            '3'
        } else if d == 4 {
            '4'
        } else if d == 5 {
            '5'
        } else if d == 6 {
            '6'
        } else if d == 7 {
            '7'
        } else if d == 8 {
            '8'
        } else {
            '9'
        };
        push_char(&mut label, c);
        assert(label@ =~= points_label(tenths as nat));
        label
    }
}

/// The image of `tenths / 10` points at `scale` for `idiom`.
pub fn make_spec(idiom: &str, tenths: u32, scale: u32) -> (spec: IconSpec)
    ensures
        spec@ == spec_for(idiom@, tenths as nat, scale as nat),
{
    let label = format_points(tenths);
    let scale_text = decimal_string(scale as u64);
    let t = tenths as u64;
    let s = scale as u64;
    assert(t * s <= 0xFFFF_FFFF * 0xFFFF_FFFF) by (nonlinear_arith)
        requires
            t <= 0xFFFF_FFFF,
            s <= 0xFFFF_FFFF,
    ;
    let exact = (t * s + 5) / 10;
    let pixels: u32 = if exact > 0xFFFF_FFFF {
        0xFFFF_FFFF
    } else {
        exact as u32
    };
    let size = label.clone().concat("x").concat(label.as_str());
    let scale_label = scale_text.clone().concat("x");
    let filename = String::from_str("icon-").concat(idiom).concat("-").concat(
        label.as_str(),
    ).concat("pt@").concat(scale_text.as_str()).concat("x.png");
    IconSpec { idiom: String::from_str(idiom), size, scale: scale_label, pixels, filename }
}

fn push_grid(specs: &mut Vec<IconSpec>, idiom: &str, points: &Vec<u32>, first_scale: u32)
    requires
        first_scale <= 9,
        points.len() <= 100,
    ensures
        spec_views(final(specs)@) == spec_views(old(specs)@) + grid(
            idiom@,
            points@,
            first_scale as nat,
        ),
{
    let ghost start = spec_views(specs@);
    let ghost g = grid(idiom@, points@, first_scale as nat);
    let n = points.len() * 2;
    let mut k: usize = 0;
    while k < n
        invariant
            n == points.len() * 2,
            k <= n,
            first_scale <= 9,
            g == grid(idiom@, points@, first_scale as nat),
            spec_views(specs@) == start + g.take(k as int),
        decreases n - k,
    {
        let spec = make_spec(idiom, points[k / 2], first_scale + (k % 2) as u32);
        let ghost before = specs@;
        specs.push(spec);
        proof {
            assert(spec_views(specs@) =~= spec_views(before).push(spec@));
            assert(g.take(k + 1) =~= g.take(k as int).push(g[k as int]));
        }
        k = k + 1;
    }
    assert(g.take(n as int) =~= g);
}

/// The images of an Apple app icon set: iPhone, iPad, Mac and App Store marketing.
pub fn icon_specs() -> (specs: Vec<IconSpec>)
    ensures
        spec_views(specs@) == apple_icon_specs(),
{
    let mut specs: Vec<IconSpec> = Vec::new();
    let iphone: Vec<u32> = vec![200, 290, 400, 600];
    let ipad: Vec<u32> = vec![200, 290, 400, 760];
    let mac: Vec<u32> = vec![160, 320, 1280, 2560, 5120];
    assert(iphone@ =~= iphone_points());
    assert(ipad@ =~= ipad_points());
    assert(mac@ =~= mac_points());
    assert(spec_views(specs@) =~= Seq::empty());
    push_grid(&mut specs, "iphone", &iphone, 2);
    push_grid(&mut specs, "ipad", &ipad, 1);
    let ghost before = specs@;
    specs.push(make_spec("ipad", 835, 2));
    assert(spec_views(specs@) =~= spec_views(before).push(spec_for("ipad"@, 835, 2)));
    push_grid(&mut specs, "mac", &mac, 1);
    let ghost before = specs@;
    let marketing = IconSpec {
        idiom: String::from_str("ios-marketing"),
        size: String::from_str("1024x1024"),
        scale: String::from_str("1x"),
        pixels: 1024,
        filename: String::from_str("icon-ios-marketing-1024pt@1x.png"),
    };
    specs.push(marketing);
    assert(spec_views(specs@) =~= spec_views(before).push(marketing_spec()));
    assert(spec_views(specs@) =~= apple_icon_specs());
    specs
}


/// One entry of `images` in `Contents.json`.
pub struct ContentImage {
    pub idiom: String,
    pub size: String,
    pub scale: String,
    pub filename: String,
}

/// The `info` object of `Contents.json`.
pub struct ContentsInfo {
    pub author: String,
    pub version: u32,
}

/// The `Contents.json` document of an icon set.
pub struct ContentsJson {
    pub images: Vec<ContentImage>,
    pub info: ContentsInfo,
}

/// Whether the entry describes the image `spec`.
pub open spec fn describes(entry: ContentImage, spec: IconSpec) -> bool {
    &&& entry.idiom@ == spec.idiom@
    &&& entry.size@ == spec.size@
    &&& entry.scale@ == spec.scale@
    &&& entry.filename@ == spec.filename@
}

/// The `Contents.json` document listing `specs`, in order, authored by `xcode`, version 1.
pub fn build_contents_json(specs: &[IconSpec]) -> (contents: ContentsJson)
    ensures
        contents.images.len() == specs.len(),
        forall|i: int|
            0 <= i < specs.len() ==> describes(#[trigger] contents.images[i], specs[i]),
        contents.info.author@ == "xcode"@,
        contents.info.version == 1,
{
    let mut images: Vec<ContentImage> = Vec::new();
    let mut i: usize = 0;
    while i < specs.len()
        invariant
            i <= specs.len(),
            images.len() == i,
            forall|k: int| 0 <= k < i ==> describes(#[trigger] images[k], specs[k]),
        decreases specs.len() - i,
    {
        let spec = &specs[i];
        images.push(
            ContentImage {
                idiom: spec.idiom.clone(),
                size: spec.size.clone(),
                scale: spec.scale.clone(),
                filename: spec.filename.clone(),
            },
        );
        i = i + 1;
    }
    ContentsJson { images, info: ContentsInfo { author: String::from_str("xcode"), version: 1 } }
}

/// A JSON value of the kinds `Contents.json` uses; object members keep their order.
#[derive(Debug)]
pub enum JsonValue {
    Text(String),
    Number(u32),
    Array(Vec<JsonValue>),
    Object(Vec<JsonMember>),
}

/// One `"key": value` member of a JSON object.
#[derive(Debug)]
pub struct JsonMember {
    pub key: String,
    pub value: JsonValue,
}

/// Whether `v` is the JSON string `s`.
pub open spec fn json_text_is(v: JsonValue, s: Seq<char>) -> bool {
    v matches JsonValue::Text(t) && t@ == s
}

/// Whether `v` is the JSON object `{"idiom", "size", "scale", "filename"}` of `entry`.
pub open spec fn image_object(v: JsonValue, entry: ContentImage) -> bool {
    &&& v matches JsonValue::Object(m)
    &&& m@.len() == 4
    &&& m@[0].key@ == "idiom"@ && json_text_is(m@[0].value, entry.idiom@)
    &&& m@[1].key@ == "size"@ && json_text_is(m@[1].value, entry.size@)
    &&& m@[2].key@ == "scale"@ && json_text_is(m@[2].value, entry.scale@)
    &&& m@[3].key@ == "filename"@ && json_text_is(m@[3].value, entry.filename@)
}

/// Whether `v` is the `Contents.json` document of `contents`:
/// `{"images": [...], "info": {"author": ..., "version": ...}}`.
pub open spec fn contents_layout(v: JsonValue, contents: ContentsJson) -> bool {
    &&& v matches JsonValue::Object(m)
    &&& m@.len() == 2
    &&& m@[0].key@ == "images"@
    &&& m@[0].value matches JsonValue::Array(a)
    &&& a@.len() == contents.images@.len()
    &&& forall|i: int| 0 <= i < a@.len() ==> image_object(#[trigger] a@[i], contents.images@[i])
    &&& m@[1].key@ == "info"@
    &&& m@[1].value matches JsonValue::Object(info)
    &&& info@.len() == 2
    &&& info@[0].key@ == "author"@ && json_text_is(info@[0].value, contents.info.author@)
    &&& info@[1].key@ == "version"@ && info@[1].value == JsonValue::Number(contents.info.version)
}

fn text_member(key: &str, value: &String) -> (m: JsonMember)
    ensures
        m.key@ == key@,
        json_text_is(m.value, value@),
{
    JsonMember { key: String::from_str(key), value: JsonValue::Text(value.clone()) }
}

/// The `Contents.json` document as a JSON value, keys in their fixed order.
pub fn contents_document(contents: &ContentsJson) -> (doc: JsonValue)
    ensures
        contents_layout(doc, *contents),
{
    let mut images: Vec<JsonValue> = Vec::new();
    let mut i: usize = 0;
    while i < contents.images.len()
        invariant
            i <= contents.images.len(),
            images@.len() == i,
            forall|k: int| 0 <= k < i ==> image_object(#[trigger] images@[k], contents.images@[k]),
        decreases contents.images.len() - i,
    {
        let entry = &contents.images[i];
        let mut members: Vec<JsonMember> = Vec::new();
        members.push(text_member("idiom", &entry.idiom));
        members.push(text_member("size", &entry.size));
        members.push(text_member("scale", &entry.scale));
        members.push(text_member("filename", &entry.filename));
        images.push(JsonValue::Object(members));
        i = i + 1;
    }
    let mut info: Vec<JsonMember> = Vec::new();
    info.push(text_member("author", &contents.info.author));
    info.push(
        JsonMember {
            key: String::from_str("version"),
            value: JsonValue::Number(contents.info.version),
        },
    );
    let mut top: Vec<JsonMember> = Vec::new();
    top.push(JsonMember { key: String::from_str("images"), value: JsonValue::Array(images) });
    top.push(JsonMember { key: String::from_str("info"), value: JsonValue::Object(info) });
    JsonValue::Object(top)
}

/// Whether `s` ends with `suffix`.
pub open spec fn has_suffix(s: Seq<char>, suffix: Seq<char>) -> bool {
    suffix.len() <= s.len() && s.subrange(s.len() - suffix.len(), s.len() as int) == suffix
}

/// Every image of the set is written as a `.png` file.
pub proof fn lemma_icon_files_are_png()
    ensures
        forall|i: int|
            0 <= i < apple_icon_specs().len() ==> has_suffix(
                (#[trigger] apple_icon_specs()[i]).filename,
                ".png"@,
            ),
{
    reveal_strlit(".png");
    reveal_strlit("x.png");
    reveal_strlit("icon-ios-marketing-1024pt@1x.png");
    let s = apple_icon_specs();
    assert(s.len() == 28);
    assert forall|i: int| 0 <= i < s.len() implies has_suffix((#[trigger] s[i]).filename, ".png"@) by {
        let f = s[i].filename;
        if i < 27 {
            lemma_layout(i);
            let base = "icon-"@ + idiom_at(i) + "-"@ + points_label(tenths_at(i)) + "pt@"@ + decimal(
                scale_at(i),
            );
            assert(f == base + "x.png"@);
            assert(f.subrange(f.len() - 4, f.len() as int) =~= ".png"@);
        } else {
            assert(s[i] == marketing_spec());
            assert(f.subrange(f.len() - 4, f.len() as int) =~= ".png"@);
        }
    }
}

/// Whether `c` is a decimal digit.
pub open spec fn is_digit(c: char) -> bool {
    '0' <= c <= '9'
}

proof fn lemma_decimal_shape(n: nat)
    ensures
        decimal(n).len() >= 1,
        n >= 10 ==> decimal(n).len() >= 2,
        forall|k: int| 0 <= k < decimal(n).len() ==> is_digit(#[trigger] decimal(n)[k]),
    decreases n,
{
    if n >= 10 {
        lemma_decimal_shape(n / 10);
        let d = decimal(n / 10);
        assert forall|k: int| 0 <= k < decimal(n).len() implies is_digit(#[trigger] decimal(n)[k]) by {
            if k < d.len() {
                assert(decimal(n)[k] == d[k]);
            }
        }
    }
}

proof fn lemma_digit_char_injective(a: nat, b: nat)
    requires
        a < 10,
        b < 10,
        digit_char(a) == digit_char(b),
    ensures
        a == b,
{
}

proof fn lemma_decimal_injective(a: nat, b: nat)
    requires
        decimal(a) == decimal(b),
    ensures
        a == b,
    decreases a,
{
    lemma_decimal_shape(a);
    lemma_decimal_shape(b);
    if a < 10 && b < 10 {
        assert(decimal(a) == seq![digit_char(a)]);
        assert(decimal(b) == seq![digit_char(b)]);
        assert(decimal(a)[0] == digit_char(a));
        assert(decimal(b)[0] == digit_char(b));
        lemma_digit_char_injective(a, b);
    } else if a >= 10 && b >= 10 {
        let da = decimal(a);
        let db = decimal(b);
        assert(da.last() == db.last());
        lemma_digit_char_injective(a % 10, b % 10);
        assert(da.drop_last() =~= decimal(a / 10));
        assert(db.drop_last() =~= decimal(b / 10));
        lemma_decimal_injective(a / 10, b / 10);
    }
}

proof fn lemma_label_injective(a: nat, b: nat)
    requires
        points_label(a) == points_label(b),
    ensures
        a == b,
{
    lemma_decimal_shape(a / 10);
    lemma_decimal_shape(b / 10);
    let da = decimal(a / 10);
    let db = decimal(b / 10);
    if a % 10 == 0 && b % 10 == 0 {
        lemma_decimal_injective(a / 10, b / 10);
    } else if a % 10 != 0 && b % 10 != 0 {
        let la = points_label(a);
        assert(la.len() == da.len() + 2);
        assert(la.subrange(0, la.len() - 2) =~= da);
        assert(la.subrange(0, la.len() - 2) =~= db);
        lemma_decimal_injective(a / 10, b / 10);
        assert(la[la.len() as int - 1] == digit_char(a % 10));
        assert(la[la.len() as int - 1] == digit_char(b % 10));
        lemma_digit_char_injective(a % 10, b % 10);
    } else if a % 10 == 0 {
        let lb = points_label(b);
        assert(lb[lb.len() as int - 2] == '.');
        assert(da[lb.len() as int - 2] == '.');
        assert(is_digit(da[lb.len() as int - 2]));
    } else {
        let la = points_label(a);
        assert(la[la.len() as int - 2] == '.');
        assert(db[la.len() as int - 2] == '.');
        assert(is_digit(db[la.len() as int - 2]));
    }
}

/// Whether `s` holds no `-`.
pub open spec fn no_dash(s: Seq<char>) -> bool {
    forall|k: int| 0 <= k < s.len() ==> s[k] != '-'
}

proof fn lemma_filename_char(idiom: Seq<char>, label: Seq<char>, scale_text: Seq<char>)
    ensures
        ({
            let f = icon_filename(idiom, label, scale_text);
            &&& f.len() == idiom.len() + label.len() + scale_text.len() + 14
            &&& forall|k: int| 0 <= k < idiom.len() ==> f[5 + k] == idiom[k]
            &&& f[5 + idiom.len() as int] == '-'
            &&& forall|k: int| 0 <= k < label.len() ==> f[6 + idiom.len() as int + k] == label[k]
            &&& forall|k: int|
                0 <= k < scale_text.len() ==> f[9 + idiom.len() as int + label.len() as int + k] == scale_text[k]
        }),
{
    reveal_strlit("icon-");
    reveal_strlit("-");
    reveal_strlit("pt@");
    reveal_strlit("x.png");
    let f = icon_filename(idiom, label, scale_text);
    let a = "icon-"@ + idiom;
    let b = a + "-"@;
    let c = b + label;
    let d = c + "pt@"@;
    let e = d + scale_text;
    assert(f == e + "x.png"@);
    assert forall|k: int| 0 <= k < idiom.len() implies f[5 + k] == idiom[k] by {
        assert(f[5 + k] == e[5 + k]);
        assert(e[5 + k] == d[5 + k]);
        assert(d[5 + k] == c[5 + k]);
        assert(c[5 + k] == b[5 + k]);
        assert(b[5 + k] == a[5 + k]);
    }
    assert(f[5 + idiom.len() as int] == b[5 + idiom.len() as int]);
    assert forall|k: int| 0 <= k < label.len() implies f[6 + idiom.len() as int + k] == label[k] by {
        assert(f[6 + idiom.len() as int + k] == e[6 + idiom.len() as int + k]);
        assert(e[6 + idiom.len() as int + k] == d[6 + idiom.len() as int + k]);
        assert(d[6 + idiom.len() as int + k] == c[6 + idiom.len() as int + k]);
    }
    assert forall|k: int|
        0 <= k < scale_text.len() implies f[9 + idiom.len() as int + label.len() as int + k] == scale_text[k] by {
        assert(f[9 + idiom.len() as int + label.len() as int + k] == e[9 + idiom.len() as int + label.len() as int + k]);
    }
}

proof fn lemma_filename_injective(
    i1: Seq<char>,
    l1: Seq<char>,
    c1: Seq<char>,
    i2: Seq<char>,
    l2: Seq<char>,
    c2: Seq<char>,
)
    requires
        no_dash(i1),
        no_dash(i2),
        c1.len() == 1,
        c2.len() == 1,
        icon_filename(i1, l1, c1) == icon_filename(i2, l2, c2),
    ensures
        i1 == i2,
        l1 == l2,
        c1 == c2,
{
    lemma_filename_char(i1, l1, c1);
    lemma_filename_char(i2, l2, c2);
    let f = icon_filename(i1, l1, c1);
    if i1.len() < i2.len() {
        assert(f[5 + i1.len() as int] == '-');
        assert(f[5 + i1.len() as int] == i2[i1.len() as int]);
    } else if i2.len() < i1.len() {
        assert(f[5 + i2.len() as int] == '-');
        assert(f[5 + i2.len() as int] == i1[i2.len() as int]);
    } else {
        assert forall|k: int| 0 <= k < i1.len() implies i1[k] == i2[k] by {
            assert(f[5 + k] == i1[k]);
        }
        assert(i1 =~= i2);
        assert(l1.len() == l2.len());
        assert forall|k: int| 0 <= k < l1.len() implies l1[k] == l2[k] by {
            assert(f[6 + i1.len() as int + k] == l1[k]);
        }
        assert(l1 =~= l2);
        assert(f[9 + i1.len() as int + l1.len() as int] == c1[0]);
        assert(c1 =~= c2);
    }
}

/// Idiom of the `i`-th image of the set, for the 27 images laid out on a grid.
spec fn idiom_at(i: int) -> Seq<char> {
    if i < 8 {
        "iphone"@
    } else if i < 17 {
        "ipad"@
    } else {
        "mac"@
    }
}

/// Point size in tenths of the `i`-th image, for the 27 images laid out on a grid.
spec fn tenths_at(i: int) -> nat {
    if i < 8 {
        iphone_points()[i / 2] as nat
    } else if i < 16 {
        ipad_points()[(i - 8) / 2] as nat
    } else if i == 16 {
        835
    } else {
        mac_points()[(i - 17) / 2] as nat
    }
}

/// Scale of the `i`-th image, for the 27 images laid out on a grid.
spec fn scale_at(i: int) -> nat {
    if i < 8 {
        (2 + i % 2) as nat
    } else if i < 16 {
        (1 + (i - 8) % 2) as nat
    } else if i == 16 {
        2
    } else {
        (1 + (i - 17) % 2) as nat
    }
}

proof fn lemma_layout(i: int)
    requires
        0 <= i < 27,
    ensures
        apple_icon_specs()[i] == spec_for(idiom_at(i), tenths_at(i), scale_at(i)),
{
    let g1 = grid("iphone"@, iphone_points(), 2);
    let g2 = grid("ipad"@, ipad_points(), 1);
    let g3 = grid("mac"@, mac_points(), 1);
    let s1 = g1 + g2;
    let s2 = s1 + seq![spec_for("ipad"@, 835, 2)];
    let s3 = s2 + g3;
    assert(apple_icon_specs() == s3 + seq![marketing_spec()]);
    assert(g1.len() == 8);
    assert(g2.len() == 8);
    assert(g3.len() == 10);
    if i < 8 {
        assert(s3[i] == g1[i]);
    } else if i < 16 {
        assert(s3[i] == g2[i - 8]);
    } else if i == 16 {
        assert(s3[i] == s2[i]);
    } else {
        assert(s3[i] == g3[i - 17]);
    }
}

proof fn lemma_idioms()
    ensures
        no_dash("iphone"@),
        no_dash("ipad"@),
        no_dash("mac"@),
        no_dash("ios"@),
        "iphone"@.len() == 6,
        "ipad"@.len() == 4,
        "mac"@.len() == 3,
        "ios"@.len() == 3,
        "mac"@ != "ios"@,
{
    reveal_strlit("iphone");
    reveal_strlit("ipad");
    reveal_strlit("mac");
    reveal_strlit("ios");
    assert("mac"@[0] != "ios"@[0]);
}

proof fn lemma_marketing_filename()
    ensures
        marketing_spec().filename == icon_filename("ios"@, "marketing-1024"@, "1"@),
{
    reveal_strlit("icon-ios-marketing-1024pt@1x.png");
    reveal_strlit("icon-");
    reveal_strlit("ios");
    reveal_strlit("-");
    reveal_strlit("marketing-1024");
    reveal_strlit("pt@");
    reveal_strlit("1");
    reveal_strlit("x.png");
    assert(marketing_spec().filename =~= icon_filename("ios"@, "marketing-1024"@, "1"@));
}

proof fn lemma_grid_keys_distinct(i: int, j: int)
    requires
        0 <= i < 27,
        0 <= j < 27,
        idiom_at(i) == idiom_at(j),
        tenths_at(i) == tenths_at(j),
        scale_at(i) == scale_at(j),
    ensures
        i == j,
{
    lemma_idioms();
    if i < 8 {
        assert(j < 8);
    } else if i < 17 {
        assert(8 <= j < 17);
    } else {
        assert(17 <= j);
    }
}

/// Every image of the set has its own file name, so the set writes as many
/// files as it has images.
pub proof fn lemma_icon_filenames_distinct()
    ensures
        apple_icon_specs().len() == 28,
        forall|i: int, j: int|
            0 <= i < j < apple_icon_specs().len() ==> (#[trigger] apple_icon_specs()[i]).filename
                != (#[trigger] apple_icon_specs()[j]).filename,
{
    let s = apple_icon_specs();
    assert(s.len() == 28);
    lemma_idioms();
    assert forall|i: int, j: int| 0 <= i < j < s.len() implies (#[trigger] s[i]).filename
        != (#[trigger] s[j]).filename by {
        if s[i].filename == s[j].filename {
            lemma_layout(i);
            lemma_decimal_shape(scale_at(i));
            if j < 27 {
                lemma_layout(j);
                lemma_filename_injective(
                    idiom_at(i),
                    points_label(tenths_at(i)),
                    decimal(scale_at(i)),
                    idiom_at(j),
                    points_label(tenths_at(j)),
                    decimal(scale_at(j)),
                );
                lemma_label_injective(tenths_at(i), tenths_at(j));
                lemma_decimal_injective(scale_at(i), scale_at(j));
                lemma_grid_keys_distinct(i, j);
            } else {
                assert(s[j] == marketing_spec());
                lemma_marketing_filename();
                reveal_strlit("1");
                lemma_filename_injective(
                    idiom_at(i),
                    points_label(tenths_at(i)),
                    decimal(scale_at(i)),
                    "ios"@,
                    "marketing-1024"@,
                    "1"@,
                );
            }
        }
    }
}

/// Whether `v` is the image with exactly these fields.
pub open spec fn row_is(
    v: IconSpecView,
    idiom: Seq<char>,
    size: Seq<char>,
    scale: Seq<char>,
    pixels: nat,
    filename: Seq<char>,
) -> bool {
    v.idiom == idiom && v.size == size && v.scale == scale && v.pixels == pixels && v.filename
        == filename
}

/// A grid image is the row built from its idiom, point label and scale text.
proof fn lemma_grid_row(
    i: int,
    idiom: Seq<char>,
    label: Seq<char>,
    scale_text: Seq<char>,
    size: Seq<char>,
    scale: Seq<char>,
    pixels: nat,
    filename: Seq<char>,
)
    requires
        0 <= i < 27,
        idiom_at(i) == idiom,
        points_label(tenths_at(i)) == label,
        decimal(scale_at(i)) == scale_text,
        rounded_pixels(tenths_at(i), scale_at(i)) == pixels,
        label + "x"@ + label == size,
        scale_text + "x"@ == scale,
        icon_filename(idiom, label, scale_text) == filename,
    ensures
        row_is(apple_icon_specs()[i], idiom, size, scale, pixels, filename),
{
    lemma_layout(i);
}

#[verifier::spinoff_prover]
proof fn lemma_row_0()
    ensures
        row_is(apple_icon_specs()[0], "iphone"@, "20x20"@, "2x"@, 40, "icon-iphone-20pt@2x.png"@),
{
    let label = seq!['2', '0'];
    let scale_text = seq!['2'];
    assert(idiom_at(0) == "iphone"@);
    assert(tenths_at(0) == 200 && scale_at(0) == 2);
    assert(points_label(200) == label) by {
        assert(decimal(2) =~= seq!['2']);
        assert(decimal(20) =~= seq!['2', '0']);
        assert(points_label(200) =~= label);
    }
    assert(decimal(2) == scale_text) by {
        assert(decimal(2) =~= scale_text);
    }
    assert(label + "x"@ + label == "20x20"@) by {
        reveal_strlit("x");
        reveal_strlit("20x20");
        assert(label + "x"@ + label =~= "20x20"@);
    }
    assert(scale_text + "x"@ == "2x"@) by {
        reveal_strlit("x");
        reveal_strlit("2x");
        assert(scale_text + "x"@ =~= "2x"@);
    }
    assert(icon_filename("iphone"@, label, scale_text) == "icon-iphone-20pt@2x.png"@) by {
        reveal_strlit("icon-");
        reveal_strlit("-");
        reveal_strlit("pt@");
        reveal_strlit("x.png");
        reveal_strlit("iphone");
        reveal_strlit("icon-iphone-20pt@2x.png");
        assert(icon_filename("iphone"@, label, scale_text) =~= "icon-iphone-20pt@2x.png"@);
    }
    lemma_grid_row(0, "iphone"@, label, scale_text, "20x20"@, "2x"@, 40, "icon-iphone-20pt@2x.png"@);
}

#[verifier::spinoff_prover]
proof fn lemma_row_1()
    ensures
        row_is(apple_icon_specs()[1], "iphone"@, "20x20"@, "3x"@, 60, "icon-iphone-20pt@3x.png"@),
{
    let label = seq!['2', '0'];
    let scale_text = seq!['3'];
    assert(idiom_at(1) == "iphone"@);
    assert(tenths_at(1) == 200 && scale_at(1) == 3);
    assert(points_label(200) == label) by {
        assert(decimal(2) =~= seq!['2']);
        assert(decimal(20) =~= seq!['2', '0']);
        assert(points_label(200) =~= label);
    }
    assert(decimal(3) == scale_text) by {
        assert(decimal(3) =~= scale_text);
    }
    assert(label + "x"@ + label == "20x20"@) by {
        reveal_strlit("x");
        reveal_strlit("20x20");
        assert(label + "x"@ + label =~= "20x20"@);
    }
    assert(scale_text + "x"@ == "3x"@) by {
        reveal_strlit("x");
        reveal_strlit("3x");
        assert(scale_text + "x"@ =~= "3x"@);
    }
    assert(icon_filename("iphone"@, label, scale_text) == "icon-iphone-20pt@3x.png"@) by {
        reveal_strlit("icon-");
        reveal_strlit("-");
        reveal_strlit("pt@");
        reveal_strlit("x.png");
        reveal_strlit("iphone");
        reveal_strlit("icon-iphone-20pt@3x.png");
        assert(icon_filename("iphone"@, label, scale_text) =~= "icon-iphone-20pt@3x.png"@);
    }
    lemma_grid_row(1, "iphone"@, label, scale_text, "20x20"@, "3x"@, 60, "icon-iphone-20pt@3x.png"@);
}

#[verifier::spinoff_prover]
proof fn lemma_row_2()
    ensures
        row_is(apple_icon_specs()[2], "iphone"@, "29x29"@, "2x"@, 58, "icon-iphone-29pt@2x.png"@),
{
    let label = seq!['2', '9'];
    let scale_text = seq!['2'];
    assert(idiom_at(2) == "iphone"@);
    assert(tenths_at(2) == 290 && scale_at(2) == 2);
    assert(points_label(290) == label) by {
        assert(decimal(2) =~= seq!['2']);
        assert(decimal(29) =~= seq!['2', '9']);
        assert(points_label(290) =~= label);
    }
    assert(decimal(2) == scale_text) by {
        assert(decimal(2) =~= scale_text);
    }
    assert(label + "x"@ + label == "29x29"@) by {
        reveal_strlit("x");
        reveal_strlit("29x29");
        assert(label + "x"@ + label =~= "29x29"@);
    }
    assert(scale_text + "x"@ == "2x"@) by {
        reveal_strlit("x");
        reveal_strlit("2x");
        assert(scale_text + "x"@ =~= "2x"@);
    }
    assert(icon_filename("iphone"@, label, scale_text) == "icon-iphone-29pt@2x.png"@) by {
        reveal_strlit("icon-");
        reveal_strlit("-");
        reveal_strlit("pt@");
        reveal_strlit("x.png");
        reveal_strlit("iphone");
        reveal_strlit("icon-iphone-29pt@2x.png");
        assert(icon_filename("iphone"@, label, scale_text) =~= "icon-iphone-29pt@2x.png"@);
    }
    lemma_grid_row(2, "iphone"@, label, scale_text, "29x29"@, "2x"@, 58, "icon-iphone-29pt@2x.png"@);
}

#[verifier::spinoff_prover]
proof fn lemma_row_3()
    ensures
        row_is(apple_icon_specs()[3], "iphone"@, "29x29"@, "3x"@, 87, "icon-iphone-29pt@3x.png"@),
{
    let label = seq!['2', '9'];
    let scale_text = seq!['3'];
    assert(idiom_at(3) == "iphone"@);
    assert(tenths_at(3) == 290 && scale_at(3) == 3);
    assert(points_label(290) == label) by {
        assert(decimal(2) =~= seq!['2']);
        assert(decimal(29) =~= seq!['2', '9']);
        assert(points_label(290) =~= label);
    }
    assert(decimal(3) == scale_text) by {
        assert(decimal(3) =~= scale_text);
    }
    assert(label + "x"@ + label == "29x29"@) by {
        reveal_strlit("x");
        reveal_strlit("29x29");
        assert(label + "x"@ + label =~= "29x29"@);
    }
    assert(scale_text + "x"@ == "3x"@) by {
        reveal_strlit("x");
        reveal_strlit("3x");
        assert(scale_text + "x"@ =~= "3x"@);
    }
    assert(icon_filename("iphone"@, label, scale_text) == "icon-iphone-29pt@3x.png"@) by {
        reveal_strlit("icon-");
        reveal_strlit("-");
        reveal_strlit("pt@");
        reveal_strlit("x.png");
        reveal_strlit("iphone");
        reveal_strlit("icon-iphone-29pt@3x.png");
        assert(icon_filename("iphone"@, label, scale_text) =~= "icon-iphone-29pt@3x.png"@);
    }
    lemma_grid_row(3, "iphone"@, label, scale_text, "29x29"@, "3x"@, 87, "icon-iphone-29pt@3x.png"@);
}

#[verifier::spinoff_prover]
proof fn lemma_row_4()
    ensures
        row_is(apple_icon_specs()[4], "iphone"@, "40x40"@, "2x"@, 80, "icon-iphone-40pt@2x.png"@),
{
    let label = seq!['4', '0'];
    let scale_text = seq!['2'];
    assert(idiom_at(4) == "iphone"@);
    assert(tenths_at(4) == 400 && scale_at(4) == 2);
    assert(points_label(400) == label) by {
        assert(decimal(4) =~= seq!['4']);
        assert(decimal(40) =~= seq!['4', '0']);
        assert(points_label(400) =~= label);
    }
    assert(decimal(2) == scale_text) by {
        assert(decimal(2) =~= scale_text);
    }
    assert(label + "x"@ + label == "40x40"@) by {
        reveal_strlit("x");
        reveal_strlit("40x40");
        assert(label + "x"@ + label =~= "40x40"@);
    }
    assert(scale_text + "x"@ == "2x"@) by {
        reveal_strlit("x");
        reveal_strlit("2x");
        assert(scale_text + "x"@ =~= "2x"@);
    }
    assert(icon_filename("iphone"@, label, scale_text) == "icon-iphone-40pt@2x.png"@) by {
        reveal_strlit("icon-");
        reveal_strlit("-");
        reveal_strlit("pt@");
        reveal_strlit("x.png");
        reveal_strlit("iphone");
        reveal_strlit("icon-iphone-40pt@2x.png");
        assert(icon_filename("iphone"@, label, scale_text) =~= "icon-iphone-40pt@2x.png"@);
    }
    lemma_grid_row(4, "iphone"@, label, scale_text, "40x40"@, "2x"@, 80, "icon-iphone-40pt@2x.png"@);
}

#[verifier::spinoff_prover]
proof fn lemma_row_5()
    ensures
        row_is(apple_icon_specs()[5], "iphone"@, "40x40"@, "3x"@, 120, "icon-iphone-40pt@3x.png"@),
{
    let label = seq!['4', '0'];
    let scale_text = seq!['3'];
    assert(idiom_at(5) == "iphone"@);
    assert(tenths_at(5) == 400 && scale_at(5) == 3);
    assert(points_label(400) == label) by {
        assert(decimal(4) =~= seq!['4']);
        assert(decimal(40) =~= seq!['4', '0']);
        assert(points_label(400) =~= label);
    }
    assert(decimal(3) == scale_text) by {
        assert(decimal(3) =~= scale_text);
    }
    assert(label + "x"@ + label == "40x40"@) by {
        reveal_strlit("x");
        reveal_strlit("40x40");
        assert(label + "x"@ + label =~= "40x40"@);
    }
    assert(scale_text + "x"@ == "3x"@) by {
        reveal_strlit("x");
        reveal_strlit("3x");
        assert(scale_text + "x"@ =~= "3x"@);
    }
    assert(icon_filename("iphone"@, label, scale_text) == "icon-iphone-40pt@3x.png"@) by {
        reveal_strlit("icon-");
        reveal_strlit("-");
        reveal_strlit("pt@");
        reveal_strlit("x.png");
        reveal_strlit("iphone");
        reveal_strlit("icon-iphone-40pt@3x.png");
        assert(icon_filename("iphone"@, label, scale_text) =~= "icon-iphone-40pt@3x.png"@);
    }
    lemma_grid_row(5, "iphone"@, label, scale_text, "40x40"@, "3x"@, 120, "icon-iphone-40pt@3x.png"@);
}

#[verifier::spinoff_prover]
proof fn lemma_row_6()
    ensures
        row_is(apple_icon_specs()[6], "iphone"@, "60x60"@, "2x"@, 120, "icon-iphone-60pt@2x.png"@),
{
    let label = seq!['6', '0'];
    let scale_text = seq!['2'];
    assert(idiom_at(6) == "iphone"@);
    assert(tenths_at(6) == 600 && scale_at(6) == 2);
    assert(points_label(600) == label) by {
        assert(decimal(6) =~= seq!['6']);
        assert(decimal(60) =~= seq!['6', '0']);
        assert(points_label(600) =~= label);
    }
    assert(decimal(2) == scale_text) by {
        assert(decimal(2) =~= scale_text);
    }
    assert(label + "x"@ + label == "60x60"@) by {
        reveal_strlit("x");
        reveal_strlit("60x60");
        assert(label + "x"@ + label =~= "60x60"@);
    }
    assert(scale_text + "x"@ == "2x"@) by {
        reveal_strlit("x");
        reveal_strlit("2x");
        assert(scale_text + "x"@ =~= "2x"@);
    }
    assert(icon_filename("iphone"@, label, scale_text) == "icon-iphone-60pt@2x.png"@) by {
        reveal_strlit("icon-");
        reveal_strlit("-");
        reveal_strlit("pt@");
        reveal_strlit("x.png");
        reveal_strlit("iphone");
        reveal_strlit("icon-iphone-60pt@2x.png");
        assert(icon_filename("iphone"@, label, scale_text) =~= "icon-iphone-60pt@2x.png"@);
    }
    lemma_grid_row(6, "iphone"@, label, scale_text, "60x60"@, "2x"@, 120, "icon-iphone-60pt@2x.png"@);
}

#[verifier::spinoff_prover]
proof fn lemma_row_7()
    ensures
        row_is(apple_icon_specs()[7], "iphone"@, "60x60"@, "3x"@, 180, "icon-iphone-60pt@3x.png"@),
{
    let label = seq!['6', '0'];
    let scale_text = seq!['3'];
    assert(idiom_at(7) == "iphone"@);
    assert(tenths_at(7) == 600 && scale_at(7) == 3);
    assert(points_label(600) == label) by {
        assert(decimal(6) =~= seq!['6']);
        assert(decimal(60) =~= seq!['6', '0']);
        assert(points_label(600) =~= label);
    }
    assert(decimal(3) == scale_text) by {
        assert(decimal(3) =~= scale_text);
    }
    assert(label + "x"@ + label == "60x60"@) by {
        reveal_strlit("x");
        reveal_strlit("60x60");
        assert(label + "x"@ + label =~= "60x60"@);
    }
    assert(scale_text + "x"@ == "3x"@) by {
        reveal_strlit("x");
        reveal_strlit("3x");
        assert(scale_text + "x"@ =~= "3x"@);
    }
    assert(icon_filename("iphone"@, label, scale_text) == "icon-iphone-60pt@3x.png"@) by {
        reveal_strlit("icon-");
        reveal_strlit("-");
        reveal_strlit("pt@");
        reveal_strlit("x.png");
        reveal_strlit("iphone");
        reveal_strlit("icon-iphone-60pt@3x.png");
        assert(icon_filename("iphone"@, label, scale_text) =~= "icon-iphone-60pt@3x.png"@);
    }
    lemma_grid_row(7, "iphone"@, label, scale_text, "60x60"@, "3x"@, 180, "icon-iphone-60pt@3x.png"@);
}

#[verifier::spinoff_prover]
proof fn lemma_row_8()
    ensures
        row_is(apple_icon_specs()[8], "ipad"@, "20x20"@, "1x"@, 20, "icon-ipad-20pt@1x.png"@),
{
    let label = seq!['2', '0'];
    let scale_text = seq!['1'];
    assert(idiom_at(8) == "ipad"@);
    assert(tenths_at(8) == 200 && scale_at(8) == 1);
    assert(points_label(200) == label) by {
        assert(decimal(2) =~= seq!['2']);
        assert(decimal(20) =~= seq!['2', '0']);
        assert(points_label(200) =~= label);
    }
    assert(decimal(1) == scale_text) by {
        assert(decimal(1) =~= scale_text);
    }
    assert(label + "x"@ + label == "20x20"@) by {
        reveal_strlit("x");
        reveal_strlit("20x20");
        assert(label + "x"@ + label =~= "20x20"@);
    }
    assert(scale_text + "x"@ == "1x"@) by {
        reveal_strlit("x");
        reveal_strlit("1x");
        assert(scale_text + "x"@ =~= "1x"@);
    }
    assert(icon_filename("ipad"@, label, scale_text) == "icon-ipad-20pt@1x.png"@) by {
        reveal_strlit("icon-");
        reveal_strlit("-");
        reveal_strlit("pt@");
        reveal_strlit("x.png");
        reveal_strlit("ipad");
        reveal_strlit("icon-ipad-20pt@1x.png");
        assert(icon_filename("ipad"@, label, scale_text) =~= "icon-ipad-20pt@1x.png"@);
    }
    lemma_grid_row(8, "ipad"@, label, scale_text, "20x20"@, "1x"@, 20, "icon-ipad-20pt@1x.png"@);
}

#[verifier::spinoff_prover]
proof fn lemma_row_9()
    ensures
        row_is(apple_icon_specs()[9], "ipad"@, "20x20"@, "2x"@, 40, "icon-ipad-20pt@2x.png"@),
{
    let label = seq!['2', '0'];
    let scale_text = seq!['2'];
    assert(idiom_at(9) == "ipad"@);
    assert(tenths_at(9) == 200 && scale_at(9) == 2);
    assert(points_label(200) == label) by {
        assert(decimal(2) =~= seq!['2']);
        assert(decimal(20) =~= seq!['2', '0']);
        assert(points_label(200) =~= label);
    }
    assert(decimal(2) == scale_text) by {
        assert(decimal(2) =~= scale_text);
    }
    assert(label + "x"@ + label == "20x20"@) by {
        reveal_strlit("x");
        reveal_strlit("20x20");
        assert(label + "x"@ + label =~= "20x20"@);
    }
    assert(scale_text + "x"@ == "2x"@) by {
        reveal_strlit("x");
        reveal_strlit("2x");
        assert(scale_text + "x"@ =~= "2x"@);
    }
    assert(icon_filename("ipad"@, label, scale_text) == "icon-ipad-20pt@2x.png"@) by {
        reveal_strlit("icon-");
        reveal_strlit("-");
        reveal_strlit("pt@");
        reveal_strlit("x.png");
        reveal_strlit("ipad");
        reveal_strlit("icon-ipad-20pt@2x.png");
        assert(icon_filename("ipad"@, label, scale_text) =~= "icon-ipad-20pt@2x.png"@);
    }
    lemma_grid_row(9, "ipad"@, label, scale_text, "20x20"@, "2x"@, 40, "icon-ipad-20pt@2x.png"@);
}

#[verifier::spinoff_prover]
proof fn lemma_row_10()
    ensures
        row_is(apple_icon_specs()[10], "ipad"@, "29x29"@, "1x"@, 29, "icon-ipad-29pt@1x.png"@),
{
    let label = seq!['2', '9'];
    let scale_text = seq!['1'];
    assert(idiom_at(10) == "ipad"@);
    assert(tenths_at(10) == 290 && scale_at(10) == 1);
    assert(points_label(290) == label) by {
        assert(decimal(2) =~= seq!['2']);
        assert(decimal(29) =~= seq!['2', '9']);
        assert(points_label(290) =~= label);
    }
    assert(decimal(1) == scale_text) by {
        assert(decimal(1) =~= scale_text);
    }
    assert(label + "x"@ + label == "29x29"@) by {
        reveal_strlit("x");
        reveal_strlit("29x29");
        assert(label + "x"@ + label =~= "29x29"@);
    }
    assert(scale_text + "x"@ == "1x"@) by {
        reveal_strlit("x");
        reveal_strlit("1x");
        assert(scale_text + "x"@ =~= "1x"@);
    }
    assert(icon_filename("ipad"@, label, scale_text) == "icon-ipad-29pt@1x.png"@) by {
        reveal_strlit("icon-");
        reveal_strlit("-");
        reveal_strlit("pt@");
        reveal_strlit("x.png");
        reveal_strlit("ipad");
        reveal_strlit("icon-ipad-29pt@1x.png");
        assert(icon_filename("ipad"@, label, scale_text) =~= "icon-ipad-29pt@1x.png"@);
    }
    lemma_grid_row(10, "ipad"@, label, scale_text, "29x29"@, "1x"@, 29, "icon-ipad-29pt@1x.png"@);
}

#[verifier::spinoff_prover]
proof fn lemma_row_11()
    ensures
        row_is(apple_icon_specs()[11], "ipad"@, "29x29"@, "2x"@, 58, "icon-ipad-29pt@2x.png"@),
{
    let label = seq!['2', '9'];
    let scale_text = seq!['2'];
    assert(idiom_at(11) == "ipad"@);
    assert(tenths_at(11) == 290 && scale_at(11) == 2);
    assert(points_label(290) == label) by {
        assert(decimal(2) =~= seq!['2']);
        assert(decimal(29) =~= seq!['2', '9']);
        assert(points_label(290) =~= label);
    }
    assert(decimal(2) == scale_text) by {
        assert(decimal(2) =~= scale_text);
    }
    assert(label + "x"@ + label == "29x29"@) by {
        reveal_strlit("x");
        reveal_strlit("29x29");
        assert(label + "x"@ + label =~= "29x29"@);
    }
    assert(scale_text + "x"@ == "2x"@) by {
        reveal_strlit("x");
        reveal_strlit("2x");
        assert(scale_text + "x"@ =~= "2x"@);
    }
    assert(icon_filename("ipad"@, label, scale_text) == "icon-ipad-29pt@2x.png"@) by {
        reveal_strlit("icon-");
        reveal_strlit("-");
        reveal_strlit("pt@");
        reveal_strlit("x.png");
        reveal_strlit("ipad");
        reveal_strlit("icon-ipad-29pt@2x.png");
        assert(icon_filename("ipad"@, label, scale_text) =~= "icon-ipad-29pt@2x.png"@);
    }
    lemma_grid_row(11, "ipad"@, label, scale_text, "29x29"@, "2x"@, 58, "icon-ipad-29pt@2x.png"@);
}

#[verifier::spinoff_prover]
proof fn lemma_row_12()
    ensures
        row_is(apple_icon_specs()[12], "ipad"@, "40x40"@, "1x"@, 40, "icon-ipad-40pt@1x.png"@),
{
    let label = seq!['4', '0'];
    let scale_text = seq!['1'];
    assert(idiom_at(12) == "ipad"@);
    assert(tenths_at(12) == 400 && scale_at(12) == 1);
    assert(points_label(400) == label) by {
        assert(decimal(4) =~= seq!['4']);
        assert(decimal(40) =~= seq!['4', '0']);
        assert(points_label(400) =~= label);
    }
    assert(decimal(1) == scale_text) by {
        assert(decimal(1) =~= scale_text);
    }
    assert(label + "x"@ + label == "40x40"@) by {
        reveal_strlit("x");
        reveal_strlit("40x40");
        assert(label + "x"@ + label =~= "40x40"@);
    }
    assert(scale_text + "x"@ == "1x"@) by {
        reveal_strlit("x");
        reveal_strlit("1x");
        assert(scale_text + "x"@ =~= "1x"@);
    }
    assert(icon_filename("ipad"@, label, scale_text) == "icon-ipad-40pt@1x.png"@) by {
        reveal_strlit("icon-");
        reveal_strlit("-");
        reveal_strlit("pt@");
        reveal_strlit("x.png");
        reveal_strlit("ipad");
        reveal_strlit("icon-ipad-40pt@1x.png");
        assert(icon_filename("ipad"@, label, scale_text) =~= "icon-ipad-40pt@1x.png"@);
    }
    lemma_grid_row(12, "ipad"@, label, scale_text, "40x40"@, "1x"@, 40, "icon-ipad-40pt@1x.png"@);
}

#[verifier::spinoff_prover]
proof fn lemma_row_13()
    ensures
        row_is(apple_icon_specs()[13], "ipad"@, "40x40"@, "2x"@, 80, "icon-ipad-40pt@2x.png"@),
{
    let label = seq!['4', '0'];
    let scale_text = seq!['2'];
    assert(idiom_at(13) == "ipad"@);
    assert(tenths_at(13) == 400 && scale_at(13) == 2);
    assert(points_label(400) == label) by {
        assert(decimal(4) =~= seq!['4']);
        assert(decimal(40) =~= seq!['4', '0']);
        assert(points_label(400) =~= label);
    }
    assert(decimal(2) == scale_text) by {
        assert(decimal(2) =~= scale_text);
    }
    assert(label + "x"@ + label == "40x40"@) by {
        reveal_strlit("x");
        reveal_strlit("40x40");
        assert(label + "x"@ + label =~= "40x40"@);
    }
    assert(scale_text + "x"@ == "2x"@) by {
        reveal_strlit("x");
        reveal_strlit("2x");
        assert(scale_text + "x"@ =~= "2x"@);
    }
    assert(icon_filename("ipad"@, label, scale_text) == "icon-ipad-40pt@2x.png"@) by {
        reveal_strlit("icon-");
        reveal_strlit("-");
        reveal_strlit("pt@");
        reveal_strlit("x.png");
        reveal_strlit("ipad");
        reveal_strlit("icon-ipad-40pt@2x.png");
        assert(icon_filename("ipad"@, label, scale_text) =~= "icon-ipad-40pt@2x.png"@);
    }
    lemma_grid_row(13, "ipad"@, label, scale_text, "40x40"@, "2x"@, 80, "icon-ipad-40pt@2x.png"@);
}

#[verifier::spinoff_prover]
proof fn lemma_row_14()
    ensures
        row_is(apple_icon_specs()[14], "ipad"@, "76x76"@, "1x"@, 76, "icon-ipad-76pt@1x.png"@),
{
    let label = seq!['7', '6'];
    let scale_text = seq!['1'];
    assert(idiom_at(14) == "ipad"@);
    assert(tenths_at(14) == 760 && scale_at(14) == 1);
    assert(points_label(760) == label) by {
        assert(decimal(7) =~= seq!['7']);
        assert(decimal(76) =~= seq!['7', '6']);
        assert(points_label(760) =~= label);
    }
    assert(decimal(1) == scale_text) by {
        assert(decimal(1) =~= scale_text);
    }
    assert(label + "x"@ + label == "76x76"@) by {
        reveal_strlit("x");
        reveal_strlit("76x76");
        assert(label + "x"@ + label =~= "76x76"@);
    }
    assert(scale_text + "x"@ == "1x"@) by {
        reveal_strlit("x");
        reveal_strlit("1x");
        assert(scale_text + "x"@ =~= "1x"@);
    }
    assert(icon_filename("ipad"@, label, scale_text) == "icon-ipad-76pt@1x.png"@) by {
        reveal_strlit("icon-");
        reveal_strlit("-");
        reveal_strlit("pt@");
        reveal_strlit("x.png");
        reveal_strlit("ipad");
        reveal_strlit("icon-ipad-76pt@1x.png");
        assert(icon_filename("ipad"@, label, scale_text) =~= "icon-ipad-76pt@1x.png"@);
    }
    lemma_grid_row(14, "ipad"@, label, scale_text, "76x76"@, "1x"@, 76, "icon-ipad-76pt@1x.png"@);
}

#[verifier::spinoff_prover]
proof fn lemma_row_15()
    ensures
        row_is(apple_icon_specs()[15], "ipad"@, "76x76"@, "2x"@, 152, "icon-ipad-76pt@2x.png"@),
{
    let label = seq!['7', '6'];
    let scale_text = seq!['2'];
    assert(idiom_at(15) == "ipad"@);
    assert(tenths_at(15) == 760 && scale_at(15) == 2);
    assert(points_label(760) == label) by {
        assert(decimal(7) =~= seq!['7']);
        assert(decimal(76) =~= seq!['7', '6']);
        assert(points_label(760) =~= label);
    }
    assert(decimal(2) == scale_text) by {
        assert(decimal(2) =~= scale_text);
    }
    assert(label + "x"@ + label == "76x76"@) by {
        reveal_strlit("x");
        reveal_strlit("76x76");
        assert(label + "x"@ + label =~= "76x76"@);
    }
    assert(scale_text + "x"@ == "2x"@) by {
        reveal_strlit("x");
        reveal_strlit("2x");
        assert(scale_text + "x"@ =~= "2x"@);
    }
    assert(icon_filename("ipad"@, label, scale_text) == "icon-ipad-76pt@2x.png"@) by {
        reveal_strlit("icon-");
        reveal_strlit("-");
        reveal_strlit("pt@");
        reveal_strlit("x.png");
        reveal_strlit("ipad");
        reveal_strlit("icon-ipad-76pt@2x.png");
        assert(icon_filename("ipad"@, label, scale_text) =~= "icon-ipad-76pt@2x.png"@);
    }
    lemma_grid_row(15, "ipad"@, label, scale_text, "76x76"@, "2x"@, 152, "icon-ipad-76pt@2x.png"@);
}

#[verifier::spinoff_prover]
proof fn lemma_row_16()
    ensures
        row_is(apple_icon_specs()[16], "ipad"@, "83.5x83.5"@, "2x"@, 167, "icon-ipad-83.5pt@2x.png"@),
{
    let label = seq!['8', '3', '.', '5'];
    let scale_text = seq!['2'];
    assert(idiom_at(16) == "ipad"@);
    assert(tenths_at(16) == 835 && scale_at(16) == 2);
    assert(points_label(835) == label) by {
        assert(decimal(8) =~= seq!['8']);
        assert(decimal(83) =~= seq!['8', '3']);
        assert(points_label(835) =~= label);
    }
    assert(decimal(2) == scale_text) by {
        assert(decimal(2) =~= scale_text);
    }
    assert(label + "x"@ + label == "83.5x83.5"@) by {
        reveal_strlit("x");
        reveal_strlit("83.5x83.5");
        assert(label + "x"@ + label =~= "83.5x83.5"@);
    }
    assert(scale_text + "x"@ == "2x"@) by {
        reveal_strlit("x");
        reveal_strlit("2x");
        assert(scale_text + "x"@ =~= "2x"@);
    }
    assert(icon_filename("ipad"@, label, scale_text) == "icon-ipad-83.5pt@2x.png"@) by {
        reveal_strlit("icon-");
        reveal_strlit("-");
        reveal_strlit("pt@");
        reveal_strlit("x.png");
        reveal_strlit("ipad");
        reveal_strlit("icon-ipad-83.5pt@2x.png");
        assert(icon_filename("ipad"@, label, scale_text) =~= "icon-ipad-83.5pt@2x.png"@);
    }
    lemma_grid_row(16, "ipad"@, label, scale_text, "83.5x83.5"@, "2x"@, 167, "icon-ipad-83.5pt@2x.png"@);
}

#[verifier::spinoff_prover]
proof fn lemma_row_17()
    ensures
        row_is(apple_icon_specs()[17], "mac"@, "16x16"@, "1x"@, 16, "icon-mac-16pt@1x.png"@),
{
    let label = seq!['1', '6'];
    let scale_text = seq!['1'];
    assert(idiom_at(17) == "mac"@);
    assert(tenths_at(17) == 160 && scale_at(17) == 1);
    assert(points_label(160) == label) by {
        assert(decimal(1) =~= seq!['1']);
        assert(decimal(16) =~= seq!['1', '6']);
        assert(points_label(160) =~= label);
    }
    assert(decimal(1) == scale_text) by {
        assert(decimal(1) =~= scale_text);
    }
    assert(label + "x"@ + label == "16x16"@) by {
        reveal_strlit("x");
        reveal_strlit("16x16");
        assert(label + "x"@ + label =~= "16x16"@);
    }
    assert(scale_text + "x"@ == "1x"@) by {
        reveal_strlit("x");
        reveal_strlit("1x");
        assert(scale_text + "x"@ =~= "1x"@);
    }
    assert(icon_filename("mac"@, label, scale_text) == "icon-mac-16pt@1x.png"@) by {
        reveal_strlit("icon-");
        reveal_strlit("-");
        reveal_strlit("pt@");
        reveal_strlit("x.png");
        reveal_strlit("mac");
        reveal_strlit("icon-mac-16pt@1x.png");
        assert(icon_filename("mac"@, label, scale_text) =~= "icon-mac-16pt@1x.png"@);
    }
    lemma_grid_row(17, "mac"@, label, scale_text, "16x16"@, "1x"@, 16, "icon-mac-16pt@1x.png"@);
}

#[verifier::spinoff_prover]
proof fn lemma_row_18()
    ensures
        row_is(apple_icon_specs()[18], "mac"@, "16x16"@, "2x"@, 32, "icon-mac-16pt@2x.png"@),
{
    let label = seq!['1', '6'];
    let scale_text = seq!['2'];
    assert(idiom_at(18) == "mac"@);
    assert(tenths_at(18) == 160 && scale_at(18) == 2);
    assert(points_label(160) == label) by {
        assert(decimal(1) =~= seq!['1']);
        assert(decimal(16) =~= seq!['1', '6']);
        assert(points_label(160) =~= label);
    }
    assert(decimal(2) == scale_text) by {
        assert(decimal(2) =~= scale_text);
    }
    assert(label + "x"@ + label == "16x16"@) by {
        reveal_strlit("x");
        reveal_strlit("16x16");
        assert(label + "x"@ + label =~= "16x16"@);
    }
    assert(scale_text + "x"@ == "2x"@) by {
        reveal_strlit("x");
        reveal_strlit("2x");
        assert(scale_text + "x"@ =~= "2x"@);
    }
    assert(icon_filename("mac"@, label, scale_text) == "icon-mac-16pt@2x.png"@) by {
        reveal_strlit("icon-");
        reveal_strlit("-");
        reveal_strlit("pt@");
        reveal_strlit("x.png");
        reveal_strlit("mac");
        reveal_strlit("icon-mac-16pt@2x.png");
        assert(icon_filename("mac"@, label, scale_text) =~= "icon-mac-16pt@2x.png"@);
    }
    lemma_grid_row(18, "mac"@, label, scale_text, "16x16"@, "2x"@, 32, "icon-mac-16pt@2x.png"@);
}

#[verifier::spinoff_prover]
proof fn lemma_row_19()
    ensures
        row_is(apple_icon_specs()[19], "mac"@, "32x32"@, "1x"@, 32, "icon-mac-32pt@1x.png"@),
{
    let label = seq!['3', '2'];
    let scale_text = seq!['1'];
    assert(idiom_at(19) == "mac"@);
    assert(tenths_at(19) == 320 && scale_at(19) == 1);
    assert(points_label(320) == label) by {
        assert(decimal(3) =~= seq!['3']);
        assert(decimal(32) =~= seq!['3', '2']);
        assert(points_label(320) =~= label);
    }
    assert(decimal(1) == scale_text) by {
        assert(decimal(1) =~= scale_text);
    }
    assert(label + "x"@ + label == "32x32"@) by {
        reveal_strlit("x");
        reveal_strlit("32x32");
        assert(label + "x"@ + label =~= "32x32"@);
    }
    assert(scale_text + "x"@ == "1x"@) by {
        reveal_strlit("x");
        reveal_strlit("1x");
        assert(scale_text + "x"@ =~= "1x"@);
    }
    assert(icon_filename("mac"@, label, scale_text) == "icon-mac-32pt@1x.png"@) by {
        reveal_strlit("icon-");
        reveal_strlit("-");
        reveal_strlit("pt@");
        reveal_strlit("x.png");
        reveal_strlit("mac");
        reveal_strlit("icon-mac-32pt@1x.png");
        assert(icon_filename("mac"@, label, scale_text) =~= "icon-mac-32pt@1x.png"@);
    }
    lemma_grid_row(19, "mac"@, label, scale_text, "32x32"@, "1x"@, 32, "icon-mac-32pt@1x.png"@);
}

#[verifier::spinoff_prover]
proof fn lemma_row_20()
    ensures
        row_is(apple_icon_specs()[20], "mac"@, "32x32"@, "2x"@, 64, "icon-mac-32pt@2x.png"@),
{
    let label = seq!['3', '2'];
    let scale_text = seq!['2'];
    assert(idiom_at(20) == "mac"@);
    assert(tenths_at(20) == 320 && scale_at(20) == 2);
    assert(points_label(320) == label) by {
        assert(decimal(3) =~= seq!['3']);
        assert(decimal(32) =~= seq!['3', '2']);
        assert(points_label(320) =~= label);
    }
    assert(decimal(2) == scale_text) by {
        assert(decimal(2) =~= scale_text);
    }
    assert(label + "x"@ + label == "32x32"@) by {
        reveal_strlit("x");
        reveal_strlit("32x32");
        assert(label + "x"@ + label =~= "32x32"@);
    }
    assert(scale_text + "x"@ == "2x"@) by {
        reveal_strlit("x");
        reveal_strlit("2x");
        assert(scale_text + "x"@ =~= "2x"@);
    }
    assert(icon_filename("mac"@, label, scale_text) == "icon-mac-32pt@2x.png"@) by {
        reveal_strlit("icon-");
        reveal_strlit("-");
        reveal_strlit("pt@");
        reveal_strlit("x.png");
        reveal_strlit("mac");
        reveal_strlit("icon-mac-32pt@2x.png");
        assert(icon_filename("mac"@, label, scale_text) =~= "icon-mac-32pt@2x.png"@);
    }
    lemma_grid_row(20, "mac"@, label, scale_text, "32x32"@, "2x"@, 64, "icon-mac-32pt@2x.png"@);
}

#[verifier::spinoff_prover]
proof fn lemma_row_21()
    ensures
        row_is(apple_icon_specs()[21], "mac"@, "128x128"@, "1x"@, 128, "icon-mac-128pt@1x.png"@),
{
    let label = seq!['1', '2', '8'];
    let scale_text = seq!['1'];
    assert(idiom_at(21) == "mac"@);
    assert(tenths_at(21) == 1280 && scale_at(21) == 1);
    assert(points_label(1280) == label) by {
        assert(decimal(1) =~= seq!['1']);
        assert(decimal(12) =~= seq!['1', '2']);
        assert(decimal(128) =~= seq!['1', '2', '8']);
        assert(points_label(1280) =~= label);
    }
    assert(decimal(1) == scale_text) by {
        assert(decimal(1) =~= scale_text);
    }
    assert(label + "x"@ + label == "128x128"@) by {
        reveal_strlit("x");
        reveal_strlit("128x128");
        assert(label + "x"@ + label =~= "128x128"@);
    }
    assert(scale_text + "x"@ == "1x"@) by {
        reveal_strlit("x");
        reveal_strlit("1x");
        assert(scale_text + "x"@ =~= "1x"@);
    }
    assert(icon_filename("mac"@, label, scale_text) == "icon-mac-128pt@1x.png"@) by {
        reveal_strlit("icon-");
        reveal_strlit("-");
        reveal_strlit("pt@");
        reveal_strlit("x.png");
        reveal_strlit("mac");
        reveal_strlit("icon-mac-128pt@1x.png");
        assert(icon_filename("mac"@, label, scale_text) =~= "icon-mac-128pt@1x.png"@);
    }
    lemma_grid_row(21, "mac"@, label, scale_text, "128x128"@, "1x"@, 128, "icon-mac-128pt@1x.png"@);
}

#[verifier::spinoff_prover]
proof fn lemma_row_22()
    ensures
        row_is(apple_icon_specs()[22], "mac"@, "128x128"@, "2x"@, 256, "icon-mac-128pt@2x.png"@),
{
    let label = seq!['1', '2', '8'];
    let scale_text = seq!['2'];
    assert(idiom_at(22) == "mac"@);
    assert(tenths_at(22) == 1280 && scale_at(22) == 2);
    assert(points_label(1280) == label) by {
        assert(decimal(1) =~= seq!['1']);
        assert(decimal(12) =~= seq!['1', '2']);
        assert(decimal(128) =~= seq!['1', '2', '8']);
        assert(points_label(1280) =~= label);
    }
    assert(decimal(2) == scale_text) by {
        assert(decimal(2) =~= scale_text);
    }
    assert(label + "x"@ + label == "128x128"@) by {
        reveal_strlit("x");
        reveal_strlit("128x128");
        assert(label + "x"@ + label =~= "128x128"@);
    }
    assert(scale_text + "x"@ == "2x"@) by {
        reveal_strlit("x");
        reveal_strlit("2x");
        assert(scale_text + "x"@ =~= "2x"@);
    }
    assert(icon_filename("mac"@, label, scale_text) == "icon-mac-128pt@2x.png"@) by {
        reveal_strlit("icon-");
        reveal_strlit("-");
        reveal_strlit("pt@");
        reveal_strlit("x.png");
        reveal_strlit("mac");
        reveal_strlit("icon-mac-128pt@2x.png");
        assert(icon_filename("mac"@, label, scale_text) =~= "icon-mac-128pt@2x.png"@);
    }
    lemma_grid_row(22, "mac"@, label, scale_text, "128x128"@, "2x"@, 256, "icon-mac-128pt@2x.png"@);
}

#[verifier::spinoff_prover]
proof fn lemma_row_23()
    ensures
        row_is(apple_icon_specs()[23], "mac"@, "256x256"@, "1x"@, 256, "icon-mac-256pt@1x.png"@),
{
    let label = seq!['2', '5', '6'];
    let scale_text = seq!['1'];
    assert(idiom_at(23) == "mac"@);
    assert(tenths_at(23) == 2560 && scale_at(23) == 1);
    assert(points_label(2560) == label) by {
        assert(decimal(2) =~= seq!['2']);
        assert(decimal(25) =~= seq!['2', '5']);
        assert(decimal(256) =~= seq!['2', '5', '6']);
        assert(points_label(2560) =~= label);
    }
    assert(decimal(1) == scale_text) by {
        assert(decimal(1) =~= scale_text);
    }
    assert(label + "x"@ + label == "256x256"@) by {
        reveal_strlit("x");
        reveal_strlit("256x256");
        assert(label + "x"@ + label =~= "256x256"@);
    }
    assert(scale_text + "x"@ == "1x"@) by {
        reveal_strlit("x");
        reveal_strlit("1x");
        assert(scale_text + "x"@ =~= "1x"@);
    }
    assert(icon_filename("mac"@, label, scale_text) == "icon-mac-256pt@1x.png"@) by {
        reveal_strlit("icon-");
        reveal_strlit("-");
        reveal_strlit("pt@");
        reveal_strlit("x.png");
        reveal_strlit("mac");
        reveal_strlit("icon-mac-256pt@1x.png");
        assert(icon_filename("mac"@, label, scale_text) =~= "icon-mac-256pt@1x.png"@);
    }
    lemma_grid_row(23, "mac"@, label, scale_text, "256x256"@, "1x"@, 256, "icon-mac-256pt@1x.png"@);
}

#[verifier::spinoff_prover]
proof fn lemma_row_24()
    ensures
        row_is(apple_icon_specs()[24], "mac"@, "256x256"@, "2x"@, 512, "icon-mac-256pt@2x.png"@),
{
    let label = seq!['2', '5', '6'];
    let scale_text = seq!['2'];
    assert(idiom_at(24) == "mac"@);
    assert(tenths_at(24) == 2560 && scale_at(24) == 2);
    assert(points_label(2560) == label) by {
        assert(decimal(2) =~= seq!['2']);
        assert(decimal(25) =~= seq!['2', '5']);
        assert(decimal(256) =~= seq!['2', '5', '6']);
        assert(points_label(2560) =~= label);
    }
    assert(decimal(2) == scale_text) by {
        assert(decimal(2) =~= scale_text);
    }
    assert(label + "x"@ + label == "256x256"@) by {
        reveal_strlit("x");
        reveal_strlit("256x256");
        assert(label + "x"@ + label =~= "256x256"@);
    }
    assert(scale_text + "x"@ == "2x"@) by {
        reveal_strlit("x");
        reveal_strlit("2x");
        assert(scale_text + "x"@ =~= "2x"@);
    }
    assert(icon_filename("mac"@, label, scale_text) == "icon-mac-256pt@2x.png"@) by {
        reveal_strlit("icon-");
        reveal_strlit("-");
        reveal_strlit("pt@");
        reveal_strlit("x.png");
        reveal_strlit("mac");
        reveal_strlit("icon-mac-256pt@2x.png");
        assert(icon_filename("mac"@, label, scale_text) =~= "icon-mac-256pt@2x.png"@);
    }
    lemma_grid_row(24, "mac"@, label, scale_text, "256x256"@, "2x"@, 512, "icon-mac-256pt@2x.png"@);
}

#[verifier::spinoff_prover]
proof fn lemma_row_25()
    ensures
        row_is(apple_icon_specs()[25], "mac"@, "512x512"@, "1x"@, 512, "icon-mac-512pt@1x.png"@),
{
    let label = seq!['5', '1', '2'];
    let scale_text = seq!['1'];
    assert(idiom_at(25) == "mac"@);
    assert(tenths_at(25) == 5120 && scale_at(25) == 1);
    assert(points_label(5120) == label) by {
        assert(decimal(5) =~= seq!['5']);
        assert(decimal(51) =~= seq!['5', '1']);
        assert(decimal(512) =~= seq!['5', '1', '2']);
        assert(points_label(5120) =~= label);
    }
    assert(decimal(1) == scale_text) by {
        assert(decimal(1) =~= scale_text);
    }
    assert(label + "x"@ + label == "512x512"@) by {
        reveal_strlit("x");
        reveal_strlit("512x512");
        assert(label + "x"@ + label =~= "512x512"@);
    }
    assert(scale_text + "x"@ == "1x"@) by {
        reveal_strlit("x");
        reveal_strlit("1x");
        assert(scale_text + "x"@ =~= "1x"@);
    }
    assert(icon_filename("mac"@, label, scale_text) == "icon-mac-512pt@1x.png"@) by {
        reveal_strlit("icon-");
        reveal_strlit("-");
        reveal_strlit("pt@");
        reveal_strlit("x.png");
        reveal_strlit("mac");
        reveal_strlit("icon-mac-512pt@1x.png");
        assert(icon_filename("mac"@, label, scale_text) =~= "icon-mac-512pt@1x.png"@);
    }
    lemma_grid_row(25, "mac"@, label, scale_text, "512x512"@, "1x"@, 512, "icon-mac-512pt@1x.png"@);
}

#[verifier::spinoff_prover]
proof fn lemma_row_26()
    ensures
        row_is(apple_icon_specs()[26], "mac"@, "512x512"@, "2x"@, 1024, "icon-mac-512pt@2x.png"@),
{
    let label = seq!['5', '1', '2'];
    let scale_text = seq!['2'];
    assert(idiom_at(26) == "mac"@);
    assert(tenths_at(26) == 5120 && scale_at(26) == 2);
    assert(points_label(5120) == label) by {
        assert(decimal(5) =~= seq!['5']);
        assert(decimal(51) =~= seq!['5', '1']);
        assert(decimal(512) =~= seq!['5', '1', '2']);
        assert(points_label(5120) =~= label);
    }
    assert(decimal(2) == scale_text) by {
        assert(decimal(2) =~= scale_text);
    }
    assert(label + "x"@ + label == "512x512"@) by {
        reveal_strlit("x");
        reveal_strlit("512x512");
        assert(label + "x"@ + label =~= "512x512"@);
    }
    assert(scale_text + "x"@ == "2x"@) by {
        reveal_strlit("x");
        reveal_strlit("2x");
        assert(scale_text + "x"@ =~= "2x"@);
    }
    assert(icon_filename("mac"@, label, scale_text) == "icon-mac-512pt@2x.png"@) by {
        reveal_strlit("icon-");
        reveal_strlit("-");
        reveal_strlit("pt@");
        reveal_strlit("x.png");
        reveal_strlit("mac");
        reveal_strlit("icon-mac-512pt@2x.png");
        assert(icon_filename("mac"@, label, scale_text) =~= "icon-mac-512pt@2x.png"@);
    }
    lemma_grid_row(26, "mac"@, label, scale_text, "512x512"@, "2x"@, 1024, "icon-mac-512pt@2x.png"@);
}

proof fn lemma_row_27()
    ensures
        row_is(apple_icon_specs()[27], "ios-marketing"@, "1024x1024"@, "1x"@, 1024, "icon-ios-marketing-1024pt@1x.png"@),
{
    lemma_icon_filenames_distinct();
}

/// The icon table, entry by entry: idiom, size, scale, pixel edge and file
/// name of each of the 28 images, in order.
pub proof fn lemma_icon_table()
    ensures
        apple_icon_specs().len() == 28,
        row_is(apple_icon_specs()[0], "iphone"@, "20x20"@, "2x"@, 40, "icon-iphone-20pt@2x.png"@),
        row_is(apple_icon_specs()[1], "iphone"@, "20x20"@, "3x"@, 60, "icon-iphone-20pt@3x.png"@),
        row_is(apple_icon_specs()[2], "iphone"@, "29x29"@, "2x"@, 58, "icon-iphone-29pt@2x.png"@),
        row_is(apple_icon_specs()[3], "iphone"@, "29x29"@, "3x"@, 87, "icon-iphone-29pt@3x.png"@),
        row_is(apple_icon_specs()[4], "iphone"@, "40x40"@, "2x"@, 80, "icon-iphone-40pt@2x.png"@),
        row_is(apple_icon_specs()[5], "iphone"@, "40x40"@, "3x"@, 120, "icon-iphone-40pt@3x.png"@),
        row_is(apple_icon_specs()[6], "iphone"@, "60x60"@, "2x"@, 120, "icon-iphone-60pt@2x.png"@),
        row_is(apple_icon_specs()[7], "iphone"@, "60x60"@, "3x"@, 180, "icon-iphone-60pt@3x.png"@),
        row_is(apple_icon_specs()[8], "ipad"@, "20x20"@, "1x"@, 20, "icon-ipad-20pt@1x.png"@),
        row_is(apple_icon_specs()[9], "ipad"@, "20x20"@, "2x"@, 40, "icon-ipad-20pt@2x.png"@),
        row_is(apple_icon_specs()[10], "ipad"@, "29x29"@, "1x"@, 29, "icon-ipad-29pt@1x.png"@),
        row_is(apple_icon_specs()[11], "ipad"@, "29x29"@, "2x"@, 58, "icon-ipad-29pt@2x.png"@),
        row_is(apple_icon_specs()[12], "ipad"@, "40x40"@, "1x"@, 40, "icon-ipad-40pt@1x.png"@),
        row_is(apple_icon_specs()[13], "ipad"@, "40x40"@, "2x"@, 80, "icon-ipad-40pt@2x.png"@),
        row_is(apple_icon_specs()[14], "ipad"@, "76x76"@, "1x"@, 76, "icon-ipad-76pt@1x.png"@),
        row_is(apple_icon_specs()[15], "ipad"@, "76x76"@, "2x"@, 152, "icon-ipad-76pt@2x.png"@),
        row_is(apple_icon_specs()[16], "ipad"@, "83.5x83.5"@, "2x"@, 167, "icon-ipad-83.5pt@2x.png"@),
        row_is(apple_icon_specs()[17], "mac"@, "16x16"@, "1x"@, 16, "icon-mac-16pt@1x.png"@),
        row_is(apple_icon_specs()[18], "mac"@, "16x16"@, "2x"@, 32, "icon-mac-16pt@2x.png"@),
        row_is(apple_icon_specs()[19], "mac"@, "32x32"@, "1x"@, 32, "icon-mac-32pt@1x.png"@),
        row_is(apple_icon_specs()[20], "mac"@, "32x32"@, "2x"@, 64, "icon-mac-32pt@2x.png"@),
        row_is(apple_icon_specs()[21], "mac"@, "128x128"@, "1x"@, 128, "icon-mac-128pt@1x.png"@),
        row_is(apple_icon_specs()[22], "mac"@, "128x128"@, "2x"@, 256, "icon-mac-128pt@2x.png"@),
        row_is(apple_icon_specs()[23], "mac"@, "256x256"@, "1x"@, 256, "icon-mac-256pt@1x.png"@),
        row_is(apple_icon_specs()[24], "mac"@, "256x256"@, "2x"@, 512, "icon-mac-256pt@2x.png"@),
        row_is(apple_icon_specs()[25], "mac"@, "512x512"@, "1x"@, 512, "icon-mac-512pt@1x.png"@),
        row_is(apple_icon_specs()[26], "mac"@, "512x512"@, "2x"@, 1024, "icon-mac-512pt@2x.png"@),
        row_is(apple_icon_specs()[27], "ios-marketing"@, "1024x1024"@, "1x"@, 1024, "icon-ios-marketing-1024pt@1x.png"@),
{
    lemma_icon_filenames_distinct();
    lemma_row_0();
    lemma_row_1();
    lemma_row_2();
    lemma_row_3();
    lemma_row_4();
    lemma_row_5();
    lemma_row_6();
    lemma_row_7();
    lemma_row_8();
    lemma_row_9();
    lemma_row_10();
    lemma_row_11();
    lemma_row_12();
    lemma_row_13();
    lemma_row_14();
    lemma_row_15();
    lemma_row_16();
    lemma_row_17();
    lemma_row_18();
    lemma_row_19();
    lemma_row_20();
    lemma_row_21();
    lemma_row_22();
    lemma_row_23();
    lemma_row_24();
    lemma_row_25();
    lemma_row_26();
    lemma_row_27();
}

} // verus!
