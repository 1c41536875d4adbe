//! Values and tags that maker-note parsers produce.
use vstd::prelude::*;

verus! {

/// A decoded tag value, by TIFF field type.
#[derive(Debug)]
pub enum ExifValue {
    Byte(Vec<u8>),
    Ascii(String),
    Short(Vec<u16>),
    Long(Vec<u32>),
    Rational(Vec<(u32, u32)>),
    SByte(Vec<i8>),
    Undefined(Vec<u8>),
    SShort(Vec<i16>),
    SLong(Vec<i32>),
    SRational(Vec<(i32, i32)>),
}

/// The mathematical content of an [`ExifValue`].
pub enum ValueView {
    Byte(Seq<u8>),
    Ascii(Seq<char>),
    Short(Seq<u16>),
    Long(Seq<u32>),
    Rational(Seq<(u32, u32)>),
    SByte(Seq<i8>),
    Undefined(Seq<u8>),
    SShort(Seq<i16>),
    SLong(Seq<i32>),
    SRational(Seq<(i32, i32)>),
}

impl View for ExifValue {
    type V = ValueView;

    open spec fn view(&self) -> ValueView {
        match self {
            ExifValue::Byte(v) => ValueView::Byte(v@),
            ExifValue::Ascii(s) => ValueView::Ascii(s@),
            ExifValue::Short(v) => ValueView::Short(v@),
            ExifValue::Long(v) => ValueView::Long(v@),
            ExifValue::Rational(v) => ValueView::Rational(v@),
            ExifValue::SByte(v) => ValueView::SByte(v@),
            ExifValue::Undefined(v) => ValueView::Undefined(v@),
            ExifValue::SShort(v) => ValueView::SShort(v@),
            ExifValue::SLong(v) => ValueView::SLong(v@),
            ExifValue::SRational(v) => ValueView::SRational(v@),
        }
    }
}

/// One maker-note tag: its ID, its name when known, and its value.
#[derive(Debug)]
pub struct MakerNoteTag {
    pub tag_id: u16,
    pub tag_name: Option<&'static str>,
    pub value: ExifValue,
    pub exiv2_value: Option<ExifValue>,
    pub exiv2_group: Option<&'static str>,
    pub exiv2_name: Option<&'static str>,
}

/// The mathematical content of a [`MakerNoteTag`].
pub struct TagView {
    pub tag_id: u16,
    pub tag_name: Option<&'static str>,
    pub value: ValueView,
    pub exiv2_value: Option<ValueView>,
    pub exiv2_group: Option<&'static str>,
    pub exiv2_name: Option<&'static str>,
}

impl View for MakerNoteTag {
    type V = TagView;

    open spec fn view(&self) -> TagView {
        TagView {
            tag_id: self.tag_id,
            tag_name: self.tag_name,
            value: self.value@,
            exiv2_value: match &self.exiv2_value {
                Some(v) => Some(v@),
                None => None,
            },
            exiv2_group: self.exiv2_group,
            exiv2_name: self.exiv2_name,
        }
    }
}

/// A tag with no separate exiv2 rendering.
pub open spec fn plain_tag(tag_id: u16, tag_name: Option<&'static str>, value: ValueView) -> TagView {
    TagView {
        tag_id,
        tag_name,
        value,
        exiv2_value: None,
        exiv2_group: None,
        exiv2_name: None,
    }
}

impl MakerNoteTag {
    /// A tag with its ID, optional name and value.
    pub fn new(tag_id: u16, tag_name: Option<&'static str>, value: ExifValue) -> (r: Self)
        ensures
            r@ == plain_tag(tag_id, tag_name, value@),
    {
        MakerNoteTag {
            tag_id,
            tag_name,
            value,
            exiv2_value: None,
            exiv2_group: None,
            exiv2_name: None,
        }
    }

    /// A tag that also carries the value, group and name under which exiv2 reports it.
    pub fn with_exiv2(
        tag_id: u16,
        tag_name: Option<&'static str>,
        value: ExifValue,
        exiv2_value: ExifValue,
        exiv2_group: &'static str,
        exiv2_name: &'static str,
    ) -> (r: Self)
        ensures
            r@ == (TagView {
                tag_id,
                tag_name,
                value: value@,
                exiv2_value: Some(exiv2_value@),
                exiv2_group: Some(exiv2_group),
                exiv2_name: Some(exiv2_name),
            }),
    {
        MakerNoteTag {
            tag_id,
            tag_name,
            value,
            exiv2_value: Some(exiv2_value),
            exiv2_group: Some(exiv2_group),
            exiv2_name: Some(exiv2_name),
        }
    }
}

/// Errors while parsing maker notes.
#[derive(Debug)]
pub enum ExifError {
    /// The data does not have the expected layout.
    Format(String),
}

fn copy_pairs_u(v: &Vec<(u32, u32)>) -> (r: Vec<(u32, u32)>)
    ensures
        r@ == v@,
{
    let mut c: Vec<(u32, u32)> = Vec::new();
    let mut i: usize = 0;
    while i < v.len()
        invariant
            i <= v@.len(),
            c@ =~= v@.take(i as int),
        decreases v.len() - i,
    {
        let (a, b) = v[i];
        c.push((a, b));
        i = i + 1;
        proof {
            assert(v@.take(i as int) =~= v@.take(i - 1).push(v@[i - 1]));
        }
    }
    proof {
        assert(v@.take(i as int) =~= v@);
    }
    c
}

fn copy_pairs_i(v: &Vec<(i32, i32)>) -> (r: Vec<(i32, i32)>)
    ensures
        r@ == v@,
{
    let mut c: Vec<(i32, i32)> = Vec::new();
    let mut i: usize = 0;
    while i < v.len()
        invariant
            i <= v@.len(),
            c@ =~= v@.take(i as int),
        decreases v.len() - i,
    {
        let (a, b) = v[i];
        c.push((a, b));
        i = i + 1;
        proof {
            assert(v@.take(i as int) =~= v@.take(i - 1).push(v@[i - 1]));
        }
    }
    proof {
        assert(v@.take(i as int) =~= v@);
    }
    c
}

/// The views of a map of tags.
pub open spec fn tag_views(m: Map<u16, MakerNoteTag>) -> Map<u16, TagView> {
    m.map_values(|t: MakerNoteTag| t@)
}

impl ExifValue {
    /// A copy of the value.
    pub fn duplicate(&self) -> (r: ExifValue)
        ensures
            r@ == self@,
    {
        match self {
            ExifValue::Byte(v) => {
                let c = v.clone();
                assert(c@ =~= v@);
                ExifValue::Byte(c)
            },
            ExifValue::Ascii(s) => ExifValue::Ascii(s.clone()),
            ExifValue::Short(v) => {
                let c = v.clone();
                assert(c@ =~= v@);
                ExifValue::Short(c)
            },
            ExifValue::Long(v) => {
                let c = v.clone();
                assert(c@ =~= v@);
                ExifValue::Long(c)
            },
            ExifValue::Rational(v) => ExifValue::Rational(copy_pairs_u(v)),
            ExifValue::SByte(v) => {
                let c = v.clone();
                assert(c@ =~= v@);
                ExifValue::SByte(c)
            },
            ExifValue::Undefined(v) => {
                let c = v.clone();
                assert(c@ =~= v@);
                ExifValue::Undefined(c)
            },
            ExifValue::SShort(v) => {
                let c = v.clone();
                assert(c@ =~= v@);
                ExifValue::SShort(c)
            },
            ExifValue::SLong(v) => {
                let c = v.clone();
                assert(c@ =~= v@);
                ExifValue::SLong(c)
            },
            ExifValue::SRational(v) => ExifValue::SRational(copy_pairs_i(v)),
        }
    }
}

} // verus!
