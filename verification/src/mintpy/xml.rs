//! Properties of ISCE2 XML files.
//!
//! The ISCE2 XML format stores every field as
//! `<property name="fieldname"><value>...</value></property>`, with the name and
//! the value on lines of their own. They are read line by line.
use vstd::prelude::*;

use crate::number;
use crate::number::parse_u32;
use crate::split;
use crate::split::{find_from, lines, trim};
use crate::text;
use crate::text::{chars_of, ends_with, starts_with, string_of, text_eq};

verus! {

/// A named value.
#[derive(Debug)]
pub struct Property {
    pub name: String,
    pub value: String,
}

/// What a `Property` says.
#[verifier::ext_equal]
pub struct PropertyModel {
    pub name: Seq<char>,
    pub value: Seq<char>,
}

impl View for Property {
    type V = PropertyModel;

    open spec fn view(&self) -> PropertyModel {
        PropertyModel { name: self.name@, value: self.value@ }
    }
}

/// The views of a list of properties.
pub open spec fn models(props: Seq<Property>) -> Seq<PropertyModel> {
    props.map_values(|p: Property| p@)
}

/// What has been read: the properties, and the name that waits for its value.
#[verifier::ext_equal]
pub struct Reading {
    pub current: Option<Seq<char>>,
    pub found: Seq<PropertyModel>,
}

/// What stands between two texts that a line begins and ends with.
pub open spec fn between(line: Seq<char>, open: Seq<char>, close: Seq<char>) -> Seq<char> {
    line.subrange(open.len() as int, line.len() - close.len())
}

/// The reading after one more line: a line that opens a property gives the name
/// that waits; a line with a value gives it to the name; any other tag but a
/// comment drops the name, so that no value of a nested component is taken for
/// it.
pub open spec fn after_line(reading: Reading, line: Seq<char>) -> Reading {
    let s = split::trimmed(line);
    if "<property name=\""@.is_prefix_of(s) {
        let inner = s.skip("<property name=\""@.len() as int);
        let end = split::until(inner, '"') as int;
        if end < inner.len() {
            Reading { current: Some(inner.take(end)), ..reading }
        } else {
            reading
        }
    } else if "<value>"@.is_prefix_of(s) && "</value>"@.is_suffix_of(s) {
        match reading.current {
            Some(name) => Reading {
                current: None,
                found: reading.found.push(
                    PropertyModel {
                        name,
                        value: split::trimmed(between(s, "<value>"@, "</value>"@)),
                    },
                ),
            },
            None => reading,
        }
    } else if "<"@.is_prefix_of(s) && !"<!--"@.is_prefix_of(s) {
        Reading { current: None, ..reading }
    } else {
        reading
    }
}

/// What the lines of a file give.
pub open spec fn read_lines(all: Seq<Seq<char>>) -> Reading
    decreases all.len(),
{
    if all.len() == 0 {
        Reading { current: None, found: Seq::empty() }
    } else {
        after_line(read_lines(all.drop_last()), all.last())
    }
}

/// The properties of a file, in document order, with the names as written.
pub open spec fn written_properties(xml: Seq<char>) -> Seq<PropertyModel> {
    read_lines(split::line_list(xml)).found
}

/// A property with its name in lower case.
pub open spec fn lowered(property: PropertyModel) -> PropertyModel {
    PropertyModel { name: text::lower_text(property.name), value: property.value }
}

/// The properties of a file, in document order, with the names in lower case.
pub open spec fn properties(xml: Seq<char>) -> Seq<PropertyModel> {
    written_properties(xml).map_values(|p: PropertyModel| lowered(p))
}

/// A line that begins and ends with the tags of a value is as long as both.
proof fn lemma_value_line(s: Seq<char>)
    requires
        "<value>"@.is_prefix_of(s),
        "</value>"@.is_suffix_of(s),
    ensures
        "<value>"@.len() == 7,
        "</value>"@.len() == 8,
        s.len() >= 15,
{
    reveal_strlit("<value>");
    reveal_strlit("</value>");
    assert("<value>"@.len() == 7);
    assert("</value>"@.len() == 8);
    let k = s.len() - 8;
    assert(s.subrange(0, 7) == "<value>"@);
    assert(s.subrange(k, s.len() as int) == "</value>"@);
    assert(s[k] == "</value>"@[0]);
    assert(s[k + 1] == "</value>"@[1]);
    assert(forall|i: int| 0 <= i < 7 ==> #[trigger] s[i] == "<value>"@[i]);
    if s.len() < 15 {
        assert(s[k] == '<');
        assert(s[k + 1] == '/');
        assert(0 <= k < 7);
        assert(s[k] == "<value>"@[k]);
        assert(k == 0);
        assert(s[1] == 'v');
    }
}

/// Extract the text content of every `<value>…</value>` element that follows a
/// `<property name="NAME">` line, returning a flat list of names and values in
/// document order. Names are lowercased; values are trimmed strings.
pub fn parse_isce_xml_properties(xml: &str) -> (r: Vec<Property>)
    ensures
        models(r@) == properties(xml@),
{
    let written = read_properties(xml);
    let mut pairs: Vec<Property> = Vec::new();
    for i in 0..written.len()
        invariant
            models(written@) == written_properties(xml@),
            pairs.len() == i,
            forall|j: int| 0 <= j < i ==> (#[trigger] pairs[j])@ == lowered(written[j]@),
    {
        pairs.push(
            Property {
                name: written[i].name.as_str().to_lowercase(),
                value: written[i].value.clone(),
            },
        );
    }
    assert(models(pairs@) =~= properties(xml@));
    pairs
}

/// Extract the text content of every `<value>…</value>` element that follows a
/// `<property name="NAME">` line, with the names as written.
pub fn read_properties(xml: &str) -> (r: Vec<Property>)
    ensures
        models(r@) == written_properties(xml@),
{
    let all = lines(xml);
    let ghost texts = text::texts(all@);
    let mut pairs: Vec<Property> = Vec::new();
    let mut current: Option<String> = None;
    assert(models(pairs@) =~= Seq::<PropertyModel>::empty());
    for i in 0..all.len()
        invariant
            texts == text::texts(all@),
            read_lines(texts.take(i as int)) == (Reading {
                current: text::opt_text(current),
                found: models(pairs@),
            }),
    {
        proof {
            assert(texts.take(i + 1).drop_last() =~= texts.take(i as int));
            assert(texts.take(i + 1).last() == all[i as int]@);
        }
        let ghost before = pairs@;
        let line = trim(all[i].as_str());
        let v = chars_of(line.as_str());
        if starts_with(line.as_str(), "<property name=\"") {
            let open = chars_of("<property name=\"");
            let from: usize = open.len();
            assert(from <= v.len());
            let end: usize = find_from(&v, from, '"');
            proof {
                let inner = v@.skip(from as int);
                split::lemma_until(inner, '"');
                assert(v@.subrange(from as int, end as int) =~= inner.take(end - from));
            }
            if end < v.len() {
                let name = string_of(&v, from, end);
                current = Some(name);
            }
        } else if starts_with(line.as_str(), "<value>") && ends_with(line.as_str(), "</value>") {
            proof {
                lemma_value_line(line@);
            }
            let open: usize = chars_of("<value>").len();
            let close: usize = chars_of("</value>").len();
            let mut name: Option<String> = None;
            std::mem::swap(&mut name, &mut current);
            if let Some(name) = name {
                let content = string_of(&v, open, v.len() - close);
                let value = trim(content.as_str());
                pairs.push(Property { name, value });
                proof {
                    assert(models(pairs@) =~= models(before).push(pairs@[before.len() as int]@));
                }
            }
        } else if starts_with(line.as_str(), "<") && !starts_with(line.as_str(), "<!--") {
            current = None;
        }
        assert(read_lines(texts.take(i + 1)) =~= (Reading {
            current: text::opt_text(current),
            found: models(pairs@),
        }));
    }
    assert(texts.take(all.len() as int) =~= texts);
    pairs
}

// ---------------------------------------------------------------------------
// Looking up
// ---------------------------------------------------------------------------

/// The values of the properties of a name, in order.
pub open spec fn values_of(props: Seq<PropertyModel>, name: Seq<char>) -> Seq<Seq<char>>
    decreases props.len(),
{
    if props.len() == 0 {
        Seq::empty()
    } else if props.last().name == name {
        values_of(props.drop_last(), name).push(props.last().value)
    } else {
        values_of(props.drop_last(), name)
    }
}

/// The first value of a name, if there is one.
pub open spec fn first_value(props: Seq<PropertyModel>, name: Seq<char>) -> Option<Seq<char>> {
    let values = values_of(props, name);
    if values.len() > 0 {
        Some(values[0])
    } else {
        None
    }
}

/// Return *all* values matching `name` (for repeated fields such as burststartutc).
pub fn get_all_props(props: &Vec<Property>, name: &str) -> (r: Vec<String>)
    ensures
        text::texts(r@) == values_of(models(props@), name@),
{
    let mut out: Vec<String> = Vec::new();
    let ghost all = models(props@);
    assert(text::texts(out@) =~= Seq::<Seq<char>>::empty());
    for i in 0..props.len()
        invariant
            all == models(props@),
            text::texts(out@) == values_of(all.take(i as int), name@),
    {
        proof {
            assert(all.take(i + 1).drop_last() =~= all.take(i as int));
            assert(all.take(i + 1).last() == props[i as int]@);
        }
        let ghost before = out@;
        if text_eq(props[i].name.as_str(), name) {
            out.push(props[i].value.clone());
            assert(text::texts(out@) =~= text::texts(before).push(props[i as int].value@));
        }
    }
    assert(all.take(props.len() as int) =~= all);
    out
}

proof fn lemma_first_value(props: Seq<PropertyModel>, name: Seq<char>, k: int)
    requires
        0 <= k <= props.len(),
        forall|i: int| 0 <= i < k ==> (#[trigger] props[i]).name != name,
        k < props.len() ==> props[k].name == name,
    ensures
        k < props.len() ==> first_value(props, name) == Some(props[k].value),
        k == props.len() ==> first_value(props, name) is None,
    decreases props.len(),
{
    if props.len() > 0 {
        let rest = props.drop_last();
        if k == props.len() {
            lemma_first_value(rest, name, k - 1);
        } else if k < rest.len() {
            assert(rest[k] == props[k]);
            lemma_first_value(rest, name, k);
        } else {
            lemma_first_value(rest, name, k);
        }
    }
}

/// Return the first value matching `name` from a property list.
pub fn get_prop(props: &Vec<Property>, name: &str) -> (r: Option<String>)
    ensures
        text::opt_text(r) == first_value(models(props@), name@),
{
    for k in 0..props.len()
        invariant
            forall|i: int| 0 <= i < k ==> (#[trigger] models(props@)[i]).name != name@,
    {
        assert(models(props@)[k as int] == props[k as int]@);
        if text_eq(props[k].name.as_str(), name) {
            proof {
                lemma_first_value(models(props@), name@, k as int);
            }
            return Some(props[k].value.clone());
        }
    }
    proof {
        lemma_first_value(models(props@), name@, props.len() as int);
    }
    None
}

// ---------------------------------------------------------------------------
// Sizes
// ---------------------------------------------------------------------------

/// The number that a property holds.
pub open spec fn size_value(props: Seq<PropertyModel>, name: Seq<char>) -> Option<int> {
    match first_value(props, name) {
        Some(value) => number::parsed_integer(value, false, 0, u32::MAX as int),
        None => None,
    }
}

/// The number of columns and of rows of an image.
#[derive(Debug, Clone, Copy, PartialEq, Eq, Structural)]
pub struct Size {
    pub width: u32,
    pub length: u32,
}

/// The size that an XML sidecar (e.g. hgt.rdr.xml) states.
pub open spec fn stated_size(xml: Seq<char>) -> Option<(int, int)> {
    size_of(properties(xml))
}

/// The size that the properties of an image state.
pub open spec fn size_of(props: Seq<PropertyModel>) -> Option<(int, int)> {
    match (size_value(props, "width"@), size_value(props, "length"@)) {
        (Some(width), Some(length)) => Some((width, length)),
        _ => None,
    }
}

/// Read width and length from an ISCE XML sidecar (e.g. hgt.rdr.xml). There is no
/// size where a key is missing or holds no number.
pub fn read_geom_xml_size(xml: &str) -> (r: Option<Size>)
    ensures
        match r {
            Some(size) => stated_size(xml@) == Some((size.width as int, size.length as int)),
            None => stated_size(xml@) is None,
        },
{
    let props = parse_isce_xml_properties(xml);
    read_size(&props)
}

/// The size that the properties of an image state, named in lower case.
pub fn read_size(props: &Vec<Property>) -> (r: Option<Size>)
    ensures
        match r {
            Some(size) => size_of(models(props@)) == Some((size.width as int, size.length as int)),
            None => size_of(models(props@)) is None,
        },
{
    let width: u32 = match get_prop(props, "width") {
        Some(value) => match parse_u32(value.as_str()) {
            Some(n) => n,
            None => {
                return None;
            },
        },
        None => {
            return None;
        },
    };
    let length: u32 = match get_prop(props, "length") {
        Some(value) => match parse_u32(value.as_str()) {
            Some(n) => n,
            None => {
                return None;
            },
        },
        None => {
            return None;
        },
    };
    Some(Size { width, length })
}

// ---------------------------------------------------------------------------
// Laws
// ---------------------------------------------------------------------------

/// The value of a name is that of the first property that bears it; it has none where
/// no property does.
pub proof fn first_properties_count(props: Seq<PropertyModel>, name: Seq<char>, k: int)
    requires
        0 <= k <= props.len(),
        forall|i: int| 0 <= i < k ==> (#[trigger] props[i]).name != name,
        k < props.len() ==> props[k].name == name,
    ensures
        k < props.len() ==> first_value(props, name) == Some(props[k].value),
        k == props.len() ==> first_value(props, name) is None,
{
    lemma_first_value(props, name, k);
}

/// The values of a name are those of the properties that bear it and of no other, as
/// many as there are of them.
pub proof fn values_go_by_their_name(props: Seq<PropertyModel>, name: Seq<char>, value: Seq<char>)
    ensures
        values_of(props, name).contains(value) <==> props.contains(PropertyModel { name, value }),
        values_of(props, name).len() == props.filter(|p: PropertyModel| p.name == name).len(),
    decreases props.len(),
{
    reveal(Seq::filter);
    if props.len() > 0 {
        let rest = props.drop_last();
        let before = values_of(rest, name);
        let all = values_of(props, name);
        let wanted = PropertyModel { name, value };
        values_go_by_their_name(rest, name, value);
        if before.contains(value) {
            let k = choose|k: int| 0 <= k < before.len() && before[k] == value;
            assert(all[k] == value);
            let i = choose|i: int| 0 <= i < rest.len() && rest[i] == wanted;
            assert(props[i] == wanted);
        }
        if all.contains(value) && !before.contains(value) {
            let k = choose|k: int| 0 <= k < all.len() && all[k] == value;
            if k < before.len() {
                assert(before[k] == value);
            }
            assert(props[props.len() - 1] == wanted);
        }
        if props.contains(wanted) {
            let i = choose|i: int| 0 <= i < props.len() && props[i] == wanted;
            if i < rest.len() {
                assert(rest[i] == wanted);
            } else {
                assert(all.last() == value);
            }
        }
    }
}

/// The width of an image is the number under `width`, its length the number under
/// `length`; there is no size where either is missing or no number.
pub proof fn sizes_go_by_their_name(props: Seq<PropertyModel>)
    ensures
        size_of(props) is Some <==> size_value(props, "width"@) is Some && size_value(
            props,
            "length"@,
        ) is Some,
        size_of(props) matches Some(size) ==> {
            &&& first_value(props, "width"@) is Some
            &&& first_value(props, "length"@) is Some
            &&& number::parsed_integer(first_value(props, "width"@)->0, false, 0, u32::MAX as int)
                == Some(size.0)
            &&& number::parsed_integer(first_value(props, "length"@)->0, false, 0, u32::MAX as int)
                == Some(size.1)
        },
{
}

/// A value belongs to the property that opens on the line before it, whatever was read
/// until then and however far both lines are indented; a tag between the two comes
/// between them.
pub proof fn values_belong_to_their_property(
    reading: Reading,
    indent: Seq<char>,
    name: Seq<char>,
    value: Seq<char>,
)
    requires
        forall|i: int| 0 <= i < indent.len() ==> text::char_is_whitespace(#[trigger] indent[i]),
        !name.contains('"'),
        value.len() > 0 && !text::char_is_whitespace(value[0]) && !text::char_is_whitespace(
            value.last(),
        ),
    ensures
        ({
            let opened = after_line(
                reading,
                indent + ("<property name=\""@ + name + "\">"@),
            );
            let line = indent + ("<value>"@ + value + "</value>"@);
            &&& after_line(opened, line) == (Reading {
                current: None,
                found: reading.found.push(PropertyModel { name, value }),
            })
            &&& after_line(after_line(opened, "<component>"@), line).found == reading.found
        }),
{
    reveal_strlit("<property name=\"");
    reveal_strlit("\">");
    reveal_strlit("<value>");
    reveal_strlit("</value>");
    reveal_strlit("<");
    reveal_strlit("<!--");
    reveal_strlit("<component>");
    let none = Seq::<char>::empty();
    let head = "<property name=\""@;
    let first = head + name + "\">"@;
    let second = "<value>"@ + value + "</value>"@;
    let n = name.len() as int;
    assert(first[0] == '<' && first.last() == '>');
    split::padding_is_trimmed(indent, first, none);
    assert(indent + first + none =~= indent + first);
    assert(first.subrange(0, head.len() as int) =~= head);
    let inner = first.skip(head.len() as int);
    assert(inner =~= name + "\">"@);
    assert forall|i: int| 0 <= i < n implies inner[i] != '"' by {
        assert(name.contains(name[i]));
        assert(inner[i] == name[i]);
    }
    assert(inner[n] == '"');
    split::lemma_until_unique(inner, '"', n);
    assert(inner.take(n) =~= name);
    let opened = after_line(reading, indent + first);
    assert(opened == (Reading { current: Some(name), found: reading.found }));
    assert(second[0] == '<' && second.last() == '>');
    split::padding_is_trimmed(indent, second, none);
    assert(indent + second + none =~= indent + second);
    assert(second.subrange(0, 7) =~= "<value>"@);
    assert(second.subrange(second.len() - 8, second.len() as int) =~= "</value>"@);
    assert(second[1] == 'v' && head[1] == 'p');
    assert(!head.is_prefix_of(second)) by {
        if head.is_prefix_of(second) {
            assert(second.subrange(0, head.len() as int)[1] == head[1]);
        }
    }
    assert(between(second, "<value>"@, "</value>"@) =~= value);
    split::padding_is_trimmed(none, value, none);
    assert(none + value + none =~= value);
    let tag = "<component>"@;
    assert(tag[0] == '<' && tag.last() == '>' && tag[1] == 'c');
    split::padding_is_trimmed(none, tag, none);
    assert(none + tag + none =~= tag);
    assert(!head.is_prefix_of(tag)) by {
        if head.is_prefix_of(tag) {
            assert(tag.subrange(0, head.len() as int)[1] == head[1]);
        }
    }
    assert(!"<value>"@.is_prefix_of(tag)) by {
        if "<value>"@.is_prefix_of(tag) {
            assert(tag.subrange(0, 7)[1] == "<value>"@[1]);
        }
    }
    assert(tag.subrange(0, 1) =~= "<"@);
    assert(!"<!--"@.is_prefix_of(tag)) by {
        if "<!--"@.is_prefix_of(tag) {
            assert(tag.subrange(0, 4)[1] == "<!--"@[1]);
        }
    }
    assert(after_line(opened, tag).current is None);
}

} // verus!
