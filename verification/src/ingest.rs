//! Turning the extractor's output into entries.
//!
//! The extractor writes, for each file, one object. A member of that object
//! is either a text, of which the one under `SourceFile` names the file, or
//! a record that describes one field. The caller parses the output and
//! hands it over in the shape of [`RawFile`]; what the records mean is
//! decided here.

use crate::entry::{
    clone_items, entry_models, item_models, opt_entry_model, opt_value_model, EntryModel, EtVal,
    ExiftoolEntry, ItemModel, JsonItem, TagEntry, ValueModel,
};
use crate::text::{
    decimal_text, find, texts, first_occurrence, numeral, occurs_at, occurs_in,
    str_contains, text_of, to_chars,
};
use vstd::prelude::*;
use vstd::string::*;

verus! {

/// Why the extractor's output could not be taken in.
#[derive(Debug, Clone, Copy, PartialEq, Eq, Structural)]
pub enum LoadError {
    /// The output holds no file at all.
    NoData,
    /// A record of the output is incomplete or of the wrong shape.
    Malformed,
}

/// What a record holds under one name.
#[derive(Debug)]
pub enum RawField {
    Null,
    Bool(bool),
    /// A number: the text that writes it, and its value where it is a whole
    /// number that is not negative and fits in 64 bits.
    Number { text: String, unsigned: Option<u64> },
    Text(String),
    List(Vec<JsonItem>),
    /// Anything else.
    Other,
}

/// What a file's object holds under one name.
#[derive(Debug)]
pub enum RawMember {
    Text(String),
    /// A record: its names and what it holds under each.
    Record(Vec<(String, RawField)>),
    /// Anything else.
    Other,
}

/// The object that the extractor wrote for one file: its names and what it
/// holds under each, in the order in which the entries are to stand.
#[derive(Debug)]
pub struct RawFile {
    pub members: Vec<(String, RawMember)>,
}

/// The mathematical model of a [`RawField`].
#[verifier::ext_equal]
pub enum FieldModel {
    Null,
    Bool(bool),
    Number { text: Seq<char>, unsigned: Option<u64> },
    Text(Seq<char>),
    List(Seq<ItemModel>),
    Other,
}

/// The mathematical model of a [`RawMember`].
#[verifier::ext_equal]
pub enum MemberModel {
    Text(Seq<char>),
    Record(Seq<(Seq<char>, FieldModel)>),
    Other,
}

impl View for RawField {
    type V = FieldModel;

    open spec fn view(&self) -> FieldModel {
        match self {
            RawField::Null => FieldModel::Null,
            RawField::Bool(b) => FieldModel::Bool(*b),
            RawField::Number { text, unsigned } => FieldModel::Number {
                text: text@,
                unsigned: *unsigned,
            },
            RawField::Text(t) => FieldModel::Text(t@),
            RawField::List(items) => FieldModel::List(item_models(items@)),
            RawField::Other => FieldModel::Other,
        }
    }
}

/// The models of the fields of a record.
pub open spec fn field_models(fields: Seq<(String, RawField)>) -> Seq<(Seq<char>, FieldModel)> {
    Seq::new(fields.len(), |i: int| (fields[i].0@, fields[i].1@))
}

impl View for RawMember {
    type V = MemberModel;

    open spec fn view(&self) -> MemberModel {
        match self {
            RawMember::Text(t) => MemberModel::Text(t@),
            RawMember::Record(fields) => MemberModel::Record(field_models(fields@)),
            RawMember::Other => MemberModel::Other,
        }
    }
}

impl View for RawFile {
    type V = Seq<(Seq<char>, MemberModel)>;

    open spec fn view(&self) -> Seq<(Seq<char>, MemberModel)> {
        Seq::new(self.members@.len(), |i: int| (self.members@[i].0@, self.members@[i].1@))
    }
}

/// What a record holds under a name: of several with that name, the last.
pub open spec fn field_of(fields: Seq<(Seq<char>, FieldModel)>, name: Seq<char>) -> Option<
    FieldModel,
>
    decreases fields.len(),
{
    if fields.len() == 0 {
        None
    } else if fields.last().0 == name {
        Some(fields.last().1)
    } else {
        field_of(fields.drop_last(), name)
    }
}

/// The value that a field stands for: a text stands for itself, a number
/// for the text that writes it, a truth value for `true` or `false`, a list
/// for its elements. Nothing else is a value.
pub open spec fn field_value(f: FieldModel) -> Option<ValueModel> {
    match f {
        FieldModel::Text(t) => Some(ValueModel::Scalar(t)),
        FieldModel::Number { text, unsigned } => Some(ValueModel::Scalar(text)),
        FieldModel::Bool(b) => Some(
            ValueModel::Scalar(
                if b {
                    "true"@
                } else {
                    "false"@
                },
            ),
        ),
        FieldModel::List(items) => Some(ValueModel::List(items)),
        _ => None,
    }
}

/// The two parts of a text on either side of the first `sep`; the whole
/// text and nothing where `sep` does not occur.
pub open spec fn split_once(s: Seq<char>, sep: Seq<char>) -> (Seq<char>, Seq<char>) {
    match first_occurrence(s, sep) {
        Some(i) => (s.take(i), s.skip(i + sep.len())),
        None => (s, Seq::empty()),
    }
}

/// The value of a decimal digit.
pub open spec fn digit_value(c: char) -> Option<nat> {
    if c == '0' {
        Some(0)
    } else if c == '1' {
        Some(1)
    } else if c == '2' {
        Some(2)
    } else if c == '3' {
        Some(3)
    } else if c == '4' {
        Some(4)
    } else if c == '5' {
        Some(5)
    } else if c == '6' {
        Some(6)
    } else if c == '7' {
        Some(7)
    } else if c == '8' {
        Some(8)
    } else if c == '9' {
        Some(9)
    } else {
        None
    }
}

/// The number of decimal digits in a text.
pub open spec fn digit_count(s: Seq<char>) -> nat
    decreases s.len(),
{
    if s.len() == 0 {
        0
    } else {
        digit_count(s.drop_last()) + if digit_value(s.last()) is Some {
            1nat
        } else {
            0nat
        }
    }
}

/// The number that the decimal digits of a text write when they are read
/// in a row, whatever stands between them.
pub open spec fn digits_number(s: Seq<char>) -> nat
    decreases s.len(),
{
    if s.len() == 0 {
        0
    } else {
        match digit_value(s.last()) {
            Some(d) => digits_number(s.drop_last()) * 10 + d,
            None => digits_number(s.drop_last()),
        }
    }
}

/// The size in bytes that a value announces. A text that holds the word
/// `bytes` and a digit announces a binary payload, and its digits give the
/// size; sizes beyond 64 bits count as the largest. Any other value, a text
/// with the word but without a digit among them, announces nothing.
pub open spec fn announced_size(v: ValueModel) -> Option<u64> {
    match v {
        ValueModel::Scalar(s) => if occurs_in(s, "bytes"@) && digit_count(s) > 0 {
            if digits_number(s) > u64::MAX {
                Some(u64::MAX)
            } else {
                Some(digits_number(s) as u64)
            }
        } else {
            None
        },
        ValueModel::List(_) => None,
    }
}

/// The tag id of a record: the number under `id`, or none where what
/// stands there is no such number. `Err` where the record has no `id`.
pub open spec fn record_id(f: Option<FieldModel>) -> Result<Option<u64>, ()> {
    match f {
        None => Err(()),
        Some(FieldModel::Number { text, unsigned }) => Ok(unsigned),
        Some(_) => Ok(None),
    }
}

/// The index of a record: none where the record has no `index` or holds
/// null there, the number where it holds one, `Err` for anything else.
pub open spec fn record_index(f: Option<FieldModel>) -> Result<Option<u64>, ()> {
    match f {
        None => Ok(None),
        Some(FieldModel::Null) => Ok(None),
        Some(FieldModel::Number { text, unsigned: Some(n) }) => Ok(Some(n)),
        Some(_) => Err(()),
    }
}

/// The numeric value of a record: none where the record has no `num` or
/// holds null there, the value where it holds one, `Err` for anything else.
pub open spec fn record_num(f: Option<FieldModel>) -> Result<Option<ValueModel>, ()> {
    match f {
        None => Ok(None),
        Some(FieldModel::Null) => Ok(None),
        Some(f) => match field_value(f) {
            Some(v) => Ok(Some(v)),
            None => Err(()),
        },
    }
}

/// The text that a record holds under a name, if it holds a text there.
pub open spec fn record_text(f: Option<FieldModel>) -> Option<Seq<char>> {
    match f {
        Some(FieldModel::Text(t)) => Some(t),
        _ => None,
    }
}

/// The entry that a record describes, or `None` where the record is
/// malformed. The record stands under `key`: the short name, or an instance
/// and the short name with a colon between them. It must hold a text under
/// `desc` and under `table`, anything under `id`, and a value under `val`.
pub open spec fn record_entry(key: Seq<char>, fields: Seq<(Seq<char>, FieldModel)>) -> Option<
    EntryModel,
> {
    let desc = record_text(field_of(fields, "desc"@));
    let table = record_text(field_of(fields, "table"@));
    let val = field_of(fields, "val"@);
    let id = record_id(field_of(fields, "id"@));
    let num = record_num(field_of(fields, "num"@));
    let index = record_index(field_of(fields, "index"@));
    if desc is Some && table is Some && val is Some && field_value(val.unwrap()) is Some && id
        is Ok && num is Ok && index is Ok {
        let v = field_value(val.unwrap()).unwrap();
        let parts = split_once(key, ":"@);
        Some(
            EntryModel {
                short_name: if occurs_in(key, ":"@) {
                    parts.1
                } else {
                    key
                },
                instance: if occurs_in(key, ":"@) {
                    parts.0
                } else {
                    Seq::empty()
                },
                binary_size: announced_size(v),
                name: desc.unwrap(),
                id: id.unwrap(),
                table: split_once(table.unwrap(), "::"@),
                val: v,
                num: num.unwrap(),
                index: index.unwrap(),
            },
        )
    } else {
        None
    }
}

/// The name of the file: the last text that stands under a name holding
/// `SourceFile`, or nothing.
pub open spec fn file_name_of(members: Seq<(Seq<char>, MemberModel)>) -> Seq<char>
    decreases members.len(),
{
    if members.len() == 0 {
        Seq::empty()
    } else {
        match members.last().1 {
            MemberModel::Text(t) => if occurs_in(members.last().0, "SourceFile"@) {
                t
            } else {
                file_name_of(members.drop_last())
            },
            _ => file_name_of(members.drop_last()),
        }
    }
}

/// The entries of the file: one for each record, in order; `None` where a
/// record is malformed.
pub open spec fn file_entries(members: Seq<(Seq<char>, MemberModel)>) -> Option<Seq<EntryModel>>
    decreases members.len(),
{
    if members.len() == 0 {
        Some(Seq::empty())
    } else {
        match file_entries(members.drop_last()) {
            None => None,
            Some(before) => match members.last().1 {
                MemberModel::Record(fields) => match record_entry(members.last().0, fields) {
                    Some(e) => Some(before.push(e)),
                    None => None,
                },
                _ => Some(before),
            },
        }
    }
}

/// The arguments that make the extractor describe the files at the given
/// paths, directories in depth if `recursive` is set.
pub open spec fn extractor_arguments(input: Seq<Seq<char>>, recursive: bool) -> Seq<Seq<char>> {
    let fixed = input + seq!["-j"@, "-G4"@, "-l"@, "-D"@, "-t"@];
    if recursive {
        fixed.push("-r"@)
    } else {
        fixed
    }
}


/// The files that the output describes: for each its name and its entries;
/// `None` where a record is malformed.
pub open spec fn described_files(files: Seq<Seq<(Seq<char>, MemberModel)>>) -> Option<
    Seq<(Seq<char>, Seq<EntryModel>)>,
>
    decreases files.len(),
{
    if files.len() == 0 {
        Some(Seq::empty())
    } else {
        match (described_files(files.drop_last()), file_entries(files.last())) {
            (Some(before), Some(entries)) => Some(
                before.push((file_name_of(files.last()), entries)),
            ),
            _ => None,
        }
    }
}

/// The models of the raw files.
pub open spec fn raw_models(files: Seq<RawFile>) -> Seq<Seq<(Seq<char>, MemberModel)>> {
    Seq::new(files.len(), |i: int| files[i]@)
}

/// The names and entries of the files, as models.
pub open spec fn named_models(files: Seq<ExiftoolEntry>) -> Seq<(Seq<char>, Seq<EntryModel>)> {
    Seq::new(files.len(), |i: int| (files[i].file_name@, entry_models(files[i].tag_entries@)))
}

/// The position of what a record holds under a name.
fn find_field(fields: &Vec<(String, RawField)>, name: &str) -> (r: Option<usize>)
    ensures
        match r {
            Some(i) => i < fields.len() && field_of(field_models(fields@), name@) == Some(
                fields@[i as int].1@,
            ),
            None => field_of(field_models(fields@), name@) is None,
        },
{
    let wanted = name.to_owned();
    let ghost models = field_models(fields@);
    let mut i: usize = fields.len();
    assert(models.take(i as int) =~= models);
    while i > 0
        invariant
            i <= fields.len(),
            wanted@ == name@,
            models == field_models(fields@),
            field_of(models, name@) == field_of(models.take(i as int), name@),
        decreases i,
    {
        assert(models.take(i as int).drop_last() =~= models.take(i - 1));
        if fields[i - 1].0 == wanted {
            return Some(i - 1);
        }
        i -= 1;
    }
    None
}

/// The two parts of a text on either side of the first `sep`, if `sep`
/// occurs in it.
fn split_text(s: &str, sep: &str) -> (r: Option<(String, String)>)
    ensures
        r is Some <==> occurs_in(s@, sep@),
        r matches Some(parts) ==> (parts.0@, parts.1@) == split_once(s@, sep@),
        r is None ==> split_once(s@, sep@) == (s@, Seq::<char>::empty()),
{
    let chars = to_chars(s);
    let pattern = to_chars(sep);
    match find(&chars, &pattern) {
        Some(i) => {
            assert(chars@.len() == chars.len() && pattern@.len() == pattern.len());
            let head = text_of(&chars, 0, i);
            let tail = text_of(&chars, i + pattern.len(), chars.len());
            Some((head, tail))
        },
        None => None,
    }
}

/// The value of a decimal digit.
fn digit_of(c: char) -> (r: Option<u64>)
    ensures
        match r {
            Some(d) => digit_value(c) == Some(d as nat) && d < 10,
            None => digit_value(c) is None,
        },
{
    if c == '0' {
        Some(0)
    } else if c == '1' {
        Some(1)
    } else if c == '2' {
        Some(2)
    } else if c == '3' {
        Some(3)
    } else if c == '4' {
        Some(4)
    } else if c == '5' {
        Some(5)
    } else if c == '6' {
        Some(6)
    } else if c == '7' {
        Some(7)
    } else if c == '8' {
        Some(8)
    } else if c == '9' {
        Some(9)
    } else {
        None
    }
}

/// The size in bytes that a value announces.
pub fn announced_bytes(v: &EtVal) -> (r: Option<u64>)
    ensures
        r == announced_size(v@),
{
    match v {
        EtVal::Array(_) => None,
        EtVal::String(s) => {
            if !str_contains(s.as_str(), "bytes") {
                return None;
            }
            let chars = to_chars(s.as_str());
            let mut seen: bool = false;
            let mut too_large: bool = false;
            let mut n: u64 = 0;
            let mut i: usize = 0;
            while i < chars.len()
                invariant
                    i <= chars.len(),
                    seen == (digit_count(chars@.take(i as int)) > 0),
                    too_large == (digits_number(chars@.take(i as int)) > u64::MAX),
                    !too_large ==> n == digits_number(chars@.take(i as int)),
                decreases chars.len() - i,
            {
                assert(chars@.take(i + 1).drop_last() =~= chars@.take(i as int));
                match digit_of(chars[i]) {
                    Some(d) => {
                        seen = true;
                        if !too_large {
                            if n > (u64::MAX - d) / 10 {
                                too_large = true;
                            } else {
                                n = n * 10 + d;
                            }
                        }
                    },
                    None => {},
                }
                i += 1;
            }
            assert(chars@.take(i as int) =~= chars@);
            if !seen {
                None
            } else if too_large {
                Some(u64::MAX)
            } else {
                Some(n)
            }
        },
    }
}

/// The value that a field stands for.
fn to_value(f: &RawField) -> (r: Option<EtVal>)
    ensures
        opt_value_model(r) == field_value(f@),
{
    match f {
        RawField::Text(t) => Some(EtVal::String(t.clone())),
        RawField::Number { text, unsigned } => Some(EtVal::String(text.clone())),
        RawField::Bool(b) => Some(
            EtVal::String(
                if *b {
                    "true".to_owned()
                } else {
                    "false".to_owned()
                },
            ),
        ),
        RawField::List(items) => Some(EtVal::Array(clone_items(items))),
        _ => None,
    }
}

/// The text of an optional string.
pub open spec fn opt_text(s: Option<String>) -> Option<Seq<char>> {
    match s {
        Some(s) => Some(s@),
        None => None,
    }
}

/// The model of the outcome of reading an optional value.
pub open spec fn num_model(r: Result<Option<EtVal>, ()>) -> Result<Option<ValueModel>, ()> {
    match r {
        Ok(v) => Ok(opt_value_model(v)),
        Err(e) => Err(e),
    }
}

/// The text that the record holds under `name`.
fn read_text(fields: &Vec<(String, RawField)>, name: &str) -> (r: Option<String>)
    ensures
        opt_text(r) == record_text(field_of(field_models(fields@), name@)),
{
    match find_field(fields, name) {
        Some(i) => match &fields[i].1 {
            RawField::Text(t) => Some(t.clone()),
            _ => None,
        },
        None => None,
    }
}

/// The value that the record holds under `val`.
fn read_val(fields: &Vec<(String, RawField)>) -> (r: Option<EtVal>)
    ensures
        opt_value_model(r) == match field_of(field_models(fields@), "val"@) {
            Some(f) => field_value(f),
            None => None,
        },
{
    match find_field(fields, "val") {
        Some(i) => to_value(&fields[i].1),
        None => None,
    }
}

/// The tag id of the record.
fn read_id(fields: &Vec<(String, RawField)>) -> (r: Result<Option<u64>, ()>)
    ensures
        r == record_id(field_of(field_models(fields@), "id"@)),
{
    match find_field(fields, "id") {
        Some(i) => match &fields[i].1 {
            RawField::Number { text, unsigned } => Ok(*unsigned),
            _ => Ok(None),
        },
        None => Err(()),
    }
}

/// The numeric value of the record.
fn read_num(fields: &Vec<(String, RawField)>) -> (r: Result<Option<EtVal>, ()>)
    ensures
        num_model(r) == record_num(field_of(field_models(fields@), "num"@)),
{
    match find_field(fields, "num") {
        Some(i) => match &fields[i].1 {
            RawField::Null => Ok(None),
            f => match to_value(f) {
                Some(v) => Ok(Some(v)),
                None => Err(()),
            },
        },
        None => Ok(None),
    }
}

/// The index of the record.
fn read_index(fields: &Vec<(String, RawField)>) -> (r: Result<Option<u64>, ()>)
    ensures
        r == record_index(field_of(field_models(fields@), "index"@)),
{
    match find_field(fields, "index") {
        Some(i) => match &fields[i].1 {
            RawField::Null => Ok(None),
            RawField::Number { text, unsigned: Some(n) } => Ok(Some(*n)),
            _ => Err(()),
        },
        None => Ok(None),
    }
}

/// The entry that the record under `key` describes, or `None` where the
/// record is malformed.
pub fn read_record(key: &str, fields: &Vec<(String, RawField)>) -> (r: Option<TagEntry>)
    ensures
        opt_entry_model(r) == record_entry(key@, field_models(fields@)),
{
    let desc = read_text(fields, "desc");
    let table = read_text(fields, "table");
    let val = read_val(fields);
    let id = read_id(fields);
    let num = read_num(fields);
    let index = read_index(fields);
    match (desc, table, val, id, num, index) {
        (Some(name), Some(t), Some(val), Ok(id), Ok(num), Ok(index)) => {
            let binary_size = announced_bytes(&val);
            let table = match split_text(t.as_str(), "::") {
                Some(parts) => parts,
                None => (t, String::new()),
            };
            let (instance, short_name) = match split_text(key, ":") {
                Some(parts) => parts,
                None => (String::new(), key.to_owned()),
            };
            Some(
                TagEntry { short_name, instance, binary_size, name, id, table, val, num, index },
            )
        },
        _ => None,
    }
}

/// The name and the entries of the file that the object describes. Fails
/// where a record is malformed.
pub fn read_entry(from: &RawFile) -> (r: Result<ExiftoolEntry, LoadError>)
    ensures
        r is Ok <==> file_entries(from@) is Some,
        r matches Err(e) ==> e == LoadError::Malformed,
        r matches Ok(file) ==> file.file_name@ == file_name_of(from@) && Some(
            entry_models(file.tag_entries@),
        ) == file_entries(from@),
{
    let ghost models = from@;
    let mut file_name = String::new();
    let mut tag_entries: Vec<TagEntry> = Vec::new();
    let mut i: usize = 0;
    while i < from.members.len()
        invariant
            i <= from.members.len(),
            models == from@,
            file_name@ == file_name_of(models.take(i as int)),
            file_entries(models.take(i as int)) == Some(entry_models(tag_entries@)),
        decreases from.members.len() - i,
    {
        let ghost before = models.take(i as int);
        let ghost next = models.take(i + 1);
        assert(next.drop_last() =~= before);
        let key = &from.members[i].0;
        match &from.members[i].1 {
            RawMember::Text(t) => {
                if str_contains(key.as_str(), "SourceFile") {
                    file_name = t.clone();
                }
            },
            RawMember::Record(fields) => {
                match read_record(key.as_str(), fields) {
                    Some(e) => {
                        tag_entries.push(e);
                    },
                    None => {
                        proof {
                            lemma_malformed_stays(models, i + 1);
                        }
                        return Err(LoadError::Malformed);
                    },
                }
            },
            RawMember::Other => {},
        }
        i += 1;
    }
    assert(models.take(i as int) =~= models);
    Ok(ExiftoolEntry { file_name, tag_entries })
}

/// A malformed record among the first members spoils the whole file.
pub proof fn lemma_malformed_stays(members: Seq<(Seq<char>, MemberModel)>, n: int)
    requires
        0 <= n <= members.len(),
        file_entries(members.take(n)) is None,
    ensures
        file_entries(members) is None,
    decreases members.len() - n,
{
    if n == members.len() {
        assert(members.take(n) =~= members);
    } else {
        assert(members.take(n + 1).drop_last() =~= members.take(n));
        lemma_malformed_stays(members, n + 1);
    }
}

/// A malformed file among the first spoils the whole output.
pub proof fn lemma_malformed_file_stays(files: Seq<Seq<(Seq<char>, MemberModel)>>, n: int)
    requires
        0 <= n <= files.len(),
        described_files(files.take(n)) is None,
    ensures
        described_files(files) is None,
    decreases files.len() - n,
{
    if n == files.len() {
        assert(files.take(n) =~= files);
    } else {
        assert(files.take(n + 1).drop_last() =~= files.take(n));
        lemma_malformed_file_stays(files, n + 1);
    }
}

/// The files that the extractor's output describes, each with its name and
/// its entries. Fails with `NoData` where the output holds no file, and
/// with `Malformed` where a record is malformed.
pub fn run(files: &Vec<RawFile>) -> (r: Result<Vec<ExiftoolEntry>, LoadError>)
    ensures
        files.len() == 0 ==> r == Err::<Vec<ExiftoolEntry>, LoadError>(LoadError::NoData),
        files.len() > 0 ==> match described_files(raw_models(files@)) {
            Some(described) => r matches Ok(v) && named_models(v@) == described && v.len()
                == files.len(),
            None => r == Err::<Vec<ExiftoolEntry>, LoadError>(LoadError::Malformed),
        },
{
    if files.len() == 0 {
        return Err(LoadError::NoData);
    }
    let ghost models = raw_models(files@);
    let mut res: Vec<ExiftoolEntry> = Vec::new();
    let mut i: usize = 0;
    while i < files.len()
        invariant
            i <= files.len(),
            res.len() == i,
            models == raw_models(files@),
            described_files(models.take(i as int)) == Some(named_models(res@)),
        decreases files.len() - i,
    {
        assert(models.take(i + 1).drop_last() =~= models.take(i as int));
        match read_entry(&files[i]) {
            Ok(file) => {
                res.push(file);
            },
            Err(_) => {
                proof {
                    lemma_malformed_file_stays(models, i + 1);
                }
                return Err(LoadError::Malformed);
            },
        }
        i += 1;
    }
    assert(models.take(i as int) =~= models);
    Ok(res)
}

/// The arguments that make the extractor describe the files at the given
/// paths, directories in depth if `recursive` is set.
pub fn run_arguments(input: &Vec<String>, recursive: bool) -> (r: Vec<String>)
    ensures
        texts(r@) == extractor_arguments(texts(input@), recursive),
{
    let mut r: Vec<String> = Vec::new();
    let mut i: usize = 0;
    while i < input.len()
        invariant
            i <= input.len(),
            texts(r@) == texts(input@).take(i as int),
        decreases input.len() - i,
    {
        let ghost before = texts(r@);
        r.push(input[i].clone());
        assert(texts(r@) =~= before.push(input@[i as int]@));
        i += 1;
    }
    let ghost paths = texts(r@);
    r.push("-j".to_owned());
    r.push("-G4".to_owned());
    r.push("-l".to_owned());
    r.push("-D".to_owned());
    r.push("-t".to_owned());
    assert(texts(r@) =~= paths + seq!["-j"@, "-G4"@, "-l"@, "-D"@, "-t"@]);
    if recursive {
        let ghost fixed = texts(r@);
        r.push("-r".to_owned());
        assert(texts(r@) =~= fixed.push("-r"@));
    }
    r
}


/// The text by which the extractor announces a binary payload of `n`
/// bytes.
pub open spec fn binary_marker(n: u64) -> Seq<char> {
    "(Binary data "@ + decimal_text(n as nat) + " bytes, use -b option to extract)"@
}

/// Ten to the power of `k`.
pub open spec fn ten_to(k: nat) -> nat
    decreases k,
{
    if k == 0 {
        1
    } else {
        10 * ten_to((k - 1) as nat)
    }
}

/// The digits of two texts in a row are the digits of the first followed
/// by the digits of the second.
pub proof fn lemma_digits_in_a_row(a: Seq<char>, b: Seq<char>)
    ensures
        digit_count(a + b) == digit_count(a) + digit_count(b),
        digits_number(a + b) == digits_number(a) * ten_to(digit_count(b)) + digits_number(b),
    decreases b.len(),
{
    if b.len() == 0 {
        assert(digits_number(a) * 1 == digits_number(a));
    } else {
        let front = b.drop_last();
        lemma_digits_in_a_row(a, front);
        assert((a + b).drop_last() =~= a + front);
        let x = digits_number(a);
        let y = digits_number(front);
        let p = ten_to(digit_count(front));
        if digit_value(b.last()) is Some {
            assert((x * p + y) * 10 == x * (10 * p) + y * 10) by (nonlinear_arith);
        }
    }
}

/// A text without digits writes no number.
pub proof fn lemma_no_digits(s: Seq<char>)
    requires
        forall|i: int| 0 <= i < s.len() ==> digit_value(#[trigger] s[i]) is None,
    ensures
        digit_count(s) == 0,
        digits_number(s) == 0,
    decreases s.len(),
{
    if s.len() > 0 {
        lemma_no_digits(s.drop_last());
    }
}

/// The digits of a number in decimal write that number.
pub proof fn lemma_decimal_reads_back(n: nat)
    ensures
        digit_count(decimal_text(n)) > 0,
        digits_number(decimal_text(n)) == n,
    decreases n,
{
    let s = numeral(n, 10);
    if n < 10 {
        assert(digits_number(s.drop_last()) == 0);
    } else {
        lemma_decimal_reads_back(n / 10);
        assert(s.drop_last() =~= numeral(n / 10, 10));
    }
}

/// The text by which the extractor announces a binary payload of `n` bytes
/// is taken for a payload of `n` bytes.
pub proof fn lemma_marker_announces_its_size(n: u64)
    ensures
        announced_size(ValueModel::Scalar(binary_marker(n))) == Some(n),
{
    let head = "(Binary data "@;
    let number = decimal_text(n as nat);
    let tail = " bytes, use -b option to extract)"@;
    let word = "bytes"@;
    reveal_strlit("(Binary data ");
    reveal_strlit(" bytes, use -b option to extract)");
    reveal_strlit("bytes");
    lemma_no_digits(head);
    lemma_no_digits(tail);
    lemma_decimal_reads_back(n as nat);
    lemma_digits_in_a_row(head, number);
    lemma_digits_in_a_row(head + number, tail);
    assert(ten_to(0) == 1);
    assert(digits_number(head) * ten_to(digit_count(number)) == 0) by (nonlinear_arith)
        requires
            digits_number(head) == 0,
    ;
    let s = binary_marker(n);
    let at: int = (head.len() + number.len() + 1) as int;
    assert(s.subrange(at, at + word.len()) =~= word);
    assert(occurs_at(s, word, at));
}

} // verus!
