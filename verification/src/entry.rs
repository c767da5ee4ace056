//! The entry model: one metadata field of one file, its identity, its
//! rendering and the filter predicate.

use crate::text::{
    decimal, decimal_text, hex, hex_text, lowercase, occurs_in, str_contains, text_of, texts,
    to_chars, to_lower,
};
use vstd::prelude::*;
use vstd::std_specs::cmp::PartialEqSpecImpl;
use vstd::string::*;

verus! {

/// One element of a list value.
#[derive(Debug)]
pub enum JsonItem {
    Null,
    Bool(bool),
    /// A number, held by the text that writes it.
    Number(String),
    Text(String),
    /// Any other value, held by its compact text.
    Other(String),
}

/// The mathematical model of a [`JsonItem`].
#[verifier::ext_equal]
pub enum ItemModel {
    Null,
    Bool(bool),
    Number(Seq<char>),
    Text(Seq<char>),
    Other(Seq<char>),
}

/// The value of a field: a single text or a list.
#[derive(Debug)]
pub enum EtVal {
    String(String),
    Array(Vec<JsonItem>),
}

/// The mathematical model of an [`EtVal`].
#[verifier::ext_equal]
pub enum ValueModel {
    Scalar(Seq<char>),
    List(Seq<ItemModel>),
}

/// One metadata field of one file.
#[derive(Debug)]
pub struct TagEntry {
    /// Machine identifier, unique within a file and table.
    pub short_name: String,
    pub instance: String,
    /// Size in bytes of the binary payload, present exactly when the field
    /// holds one that can be extracted.
    pub binary_size: Option<u64>,
    /// Human label.
    pub name: String,
    pub id: Option<u64>,
    /// Group and subgroup; the subgroup may be empty.
    pub table: (String, String),
    pub val: EtVal,
    pub num: Option<EtVal>,
    pub index: Option<u64>,
}

/// The mathematical model of a [`TagEntry`].
#[verifier::ext_equal]
pub struct EntryModel {
    pub short_name: Seq<char>,
    pub instance: Seq<char>,
    pub binary_size: Option<u64>,
    pub name: Seq<char>,
    pub id: Option<u64>,
    pub table: (Seq<char>, Seq<char>),
    pub val: ValueModel,
    pub num: Option<ValueModel>,
    pub index: Option<u64>,
}

/// The identity of a field across files: short name and table.
#[derive(Debug, Hash)]
pub struct TagEntryKey {
    pub short_name: String,
    pub table: (String, String),
}

/// The mathematical model of a [`TagEntryKey`].
#[verifier::ext_equal]
pub struct KeyModel {
    pub short_name: Seq<char>,
    pub table: (Seq<char>, Seq<char>),
}

/// All fields extracted from one file, in extraction order.
#[derive(Debug)]
pub struct ExiftoolEntry {
    pub file_name: String,
    pub tag_entries: Vec<TagEntry>,
}

impl View for JsonItem {
    type V = ItemModel;

    open spec fn view(&self) -> ItemModel {
        match self {
            JsonItem::Null => ItemModel::Null,
            JsonItem::Bool(b) => ItemModel::Bool(*b),
            JsonItem::Number(t) => ItemModel::Number(t@),
            JsonItem::Text(t) => ItemModel::Text(t@),
            JsonItem::Other(t) => ItemModel::Other(t@),
        }
    }
}

/// The models of a sequence of items.
pub open spec fn item_models(items: Seq<JsonItem>) -> Seq<ItemModel> {
    Seq::new(items.len(), |i: int| items[i]@)
}

impl View for EtVal {
    type V = ValueModel;

    open spec fn view(&self) -> ValueModel {
        match self {
            EtVal::String(s) => ValueModel::Scalar(s@),
            EtVal::Array(items) => ValueModel::List(item_models(items@)),
        }
    }
}

/// The model of an optional value.
pub open spec fn opt_value_model(v: Option<EtVal>) -> Option<ValueModel> {
    match v {
        Some(v) => Some(v@),
        None => None,
    }
}

impl View for TagEntry {
    type V = EntryModel;

    open spec fn view(&self) -> EntryModel {
        EntryModel {
            short_name: self.short_name@,
            instance: self.instance@,
            binary_size: self.binary_size,
            name: self.name@,
            id: self.id,
            table: (self.table.0@, self.table.1@),
            val: self.val@,
            num: opt_value_model(self.num),
            index: self.index,
        }
    }
}

impl View for TagEntryKey {
    type V = KeyModel;

    open spec fn view(&self) -> KeyModel {
        KeyModel { short_name: self.short_name@, table: (self.table.0@, self.table.1@) }
    }
}

/// The models of a sequence of entries.
pub open spec fn entry_models(entries: Seq<TagEntry>) -> Seq<EntryModel> {
    Seq::new(entries.len(), |i: int| entries[i]@)
}

/// The model of an optional entry.
pub open spec fn opt_entry_model(e: Option<TagEntry>) -> Option<EntryModel> {
    match e {
        Some(e) => Some(e@),
        None => None,
    }
}

/// The text of a string element as it stands in a list: quoted and escaped
/// after the rules of JSON.
pub uninterp spec fn json_quoted(s: Seq<char>) -> Seq<char>;

/// The text that shows one list element.
pub open spec fn item_text(item: ItemModel) -> Seq<char> {
    match item {
        ItemModel::Null => "null"@,
        ItemModel::Bool(b) => if b {
            "true"@
        } else {
            "false"@
        },
        ItemModel::Number(t) => t,
        ItemModel::Text(t) => json_quoted(t),
        ItemModel::Other(t) => t,
    }
}

/// The texts of the elements, with one space between neighbours.
pub open spec fn joined(items: Seq<ItemModel>) -> Seq<char>
    decreases items.len(),
{
    if items.len() == 0 {
        Seq::empty()
    } else if items.len() == 1 {
        item_text(items[0])
    } else {
        joined(items.drop_last()) + seq![' '] + item_text(items.last())
    }
}

/// The text that shows a value.
pub open spec fn value_text(v: ValueModel) -> Seq<char> {
    match v {
        ValueModel::Scalar(s) => s,
        ValueModel::List(items) => joined(items),
    }
}

/// Does the value match the filter text? A single text is compared without
/// regard to case. The elements of a list are compared as they are shown,
/// against the filter text as it was typed: a list matches only in the
/// exact case.
pub open spec fn value_matches(v: ValueModel, text: Seq<char>) -> bool {
    match v {
        ValueModel::Scalar(s) => occurs_in(lowercase(s), lowercase(text)),
        ValueModel::List(items) => some_item_shows(items, text),
    }
}

/// The text of some element holds `text`.
pub open spec fn some_item_shows(items: Seq<ItemModel>, text: Seq<char>) -> bool {
    exists|i: int| 0 <= i < items.len() && occurs_in(#[trigger] item_text(items[i]), text)
}

/// The table as one text: the group alone, or group and subgroup with `::`
/// between them.
pub open spec fn table_text(table: (Seq<char>, Seq<char>)) -> Seq<char> {
    if table.1.len() == 0 {
        table.0
    } else {
        table.0 + "::"@ + table.1
    }
}

/// The filter has the form `<<X>>`, which restricts it to the table.
pub open spec fn is_scoped(f: Seq<char>) -> bool {
    &&& f.len() >= 2
    &&& f[0] == '<'
    &&& f[1] == '<'
    &&& f[f.len() - 2] == '>'
    &&& f[f.len() - 1] == '>'
}

/// The `X` of a filter of the form `<<X>>`.
pub open spec fn scope_of(f: Seq<char>) -> Seq<char> {
    f.subrange(2, f.len() - 2)
}

/// The filter predicate. A filter of the form `<<X>>` matches on the table
/// text alone; any other matches on the label, the short name, the value or
/// the numeric value. All comparisons but those of list elements disregard
/// case.
pub open spec fn matches_filter(e: EntryModel, text: Seq<char>) -> bool {
    let f = lowercase(text);
    if is_scoped(f) {
        occurs_in(lowercase(table_text(e.table)), scope_of(f))
    } else {
        ||| occurs_in(lowercase(e.name), f)
        ||| occurs_in(lowercase(e.short_name), f)
        ||| value_matches(e.val, text)
        ||| (e.num matches Some(n) && value_matches(n, text))
    }
}

/// The text that shows the tag id: decimal and hexadecimal, or `Unknown`.
pub open spec fn id_text(id: Option<u64>) -> Seq<char> {
    match id {
        Some(n) => decimal_text(n as nat) + " ("@ + hex_text(n as nat) + ")"@,
        None => "Unknown"@,
    }
}

/// The summary of an entry without the line for the index.
pub open spec fn summary_head(e: EntryModel) -> Seq<char> {
    "Name: "@ + e.name + "\nShort name: "@ + e.short_name + "\nTag ID: "@ + id_text(e.id)
        + "\nTag family: "@ + table_text(e.table) + "\nTag value: "@ + value_text(e.val)
        + "\nTag numerical value: "@ + value_text(
        match e.num {
            Some(n) => n,
            None => e.val,
        },
    )
}

/// The summary of an entry in several lines.
pub open spec fn summary(e: EntryModel) -> Seq<char> {
    match e.index {
        Some(i) => summary_head(e) + "\nTag index: "@ + decimal_text(i as nat),
        None => summary_head(e),
    }
}

/// The identity of an entry.
pub open spec fn key_of(e: EntryModel) -> KeyModel {
    KeyModel { short_name: e.short_name, table: e.table }
}

/// Equality of entries: everything but the label and the numeric value.
pub open spec fn same_entry(a: EntryModel, b: EntryModel) -> bool {
    &&& a.short_name == b.short_name
    &&& a.binary_size == b.binary_size
    &&& a.id == b.id
    &&& a.table == b.table
    &&& a.val == b.val
    &&& a.index == b.index
}

/// The address of the page that documents the tags of a group.
pub open spec fn web_page(group: Seq<char>) -> Seq<char> {
    if group == "Exif"@ {
        "https://exiftool.org/TagNames/EXIF.html"@
    } else {
        "https://exiftool.org/TagNames/"@ + group + ".html"@
    }
}

/// The arguments that make the extractor write one field's payload.
pub open spec fn binary_arguments(e: EntryModel, image_path: Seq<char>) -> Seq<Seq<char>> {
    seq![image_path, "-"@ + e.short_name, "-b"@]
}

/// Calls `Display::fmt` of `serde_json::Value` on a string value, through
/// `to_string`: the result is the compact JSON text of the string, quoted and
/// escaped.
#[verifier::external_body]
fn quote_json(s: &str) -> (r: String)
    ensures
        r@ == json_quoted(s@),
{
    serde_json::Value::String(s.to_owned()).to_string()
}

impl Clone for JsonItem {
    fn clone(&self) -> (r: Self)
        ensures
            r@ == self@,
    {
        match self {
            JsonItem::Null => JsonItem::Null,
            JsonItem::Bool(b) => JsonItem::Bool(*b),
            JsonItem::Number(t) => JsonItem::Number(t.clone()),
            JsonItem::Text(t) => JsonItem::Text(t.clone()),
            JsonItem::Other(t) => JsonItem::Other(t.clone()),
        }
    }
}

impl PartialEq for JsonItem {
    fn eq(&self, other: &Self) -> (b: bool) {
        match (self, other) {
            (JsonItem::Null, JsonItem::Null) => true,
            (JsonItem::Bool(a), JsonItem::Bool(b)) => *a == *b,
            (JsonItem::Number(a), JsonItem::Number(b)) => *a == *b,
            (JsonItem::Text(a), JsonItem::Text(b)) => *a == *b,
            (JsonItem::Other(a), JsonItem::Other(b)) => *a == *b,
            _ => false,
        }
    }
}

impl PartialEqSpecImpl for JsonItem {
    open spec fn obeys_eq_spec() -> bool {
        true
    }

    open spec fn eq_spec(&self, other: &Self) -> bool {
        self@ == other@
    }
}

impl JsonItem {
    /// The text that shows the element.
    pub fn to_string(&self) -> (r: String)
        ensures
            r@ == item_text(self@),
    {
        match self {
            JsonItem::Null => "null".to_owned(),
            JsonItem::Bool(b) => if *b {
                "true".to_owned()
            } else {
                "false".to_owned()
            },
            JsonItem::Number(t) => t.clone(),
            JsonItem::Text(t) => quote_json(t.as_str()),
            JsonItem::Other(t) => t.clone(),
        }
    }
}


/// The table text that a filter asks for: the `X` of a filter of the form
/// `<<X>>`, and nothing for a filter of any other form. The filter is taken
/// as it stands.
pub fn filter_scope(filter: &str) -> (r: Option<String>)
    ensures
        r is Some <==> is_scoped(filter@),
        r matches Some(scope) ==> scope@ == scope_of(filter@),
{
    let chars = to_chars(filter);
    let n = chars.len();
    if n >= 2 && chars[0] == '<' && chars[1] == '<' && chars[n - 2] == '>' && chars[n - 1] == '>' {
        Some(text_of(&chars, 2, n - 2))
    } else {
        None
    }
}

/// The copy of a list of items.
pub fn clone_items(items: &Vec<JsonItem>) -> (r: Vec<JsonItem>)
    ensures
        item_models(r@) == item_models(items@),
{
    let mut r: Vec<JsonItem> = Vec::new();
    let mut i: usize = 0;
    while i < items.len()
        invariant
            i <= items.len(),
            r.len() == i,
            forall|j: int| 0 <= j < i ==> r@[j]@ == items@[j]@,
        decreases items.len() - i,
    {
        r.push(items[i].clone());
        i += 1;
    }
    r
}

/// Do two lists hold equal items at every position?
fn same_items(a: &Vec<JsonItem>, b: &Vec<JsonItem>) -> (r: bool)
    ensures
        r == (item_models(a@) == item_models(b@)),
{
    if a.len() != b.len() {
        assert(item_models(a@).len() != item_models(b@).len());
        return false;
    }
    let mut i: usize = 0;
    while i < a.len()
        invariant
            i <= a.len(),
            a.len() == b.len(),
            forall|j: int| 0 <= j < i ==> a@[j]@ == b@[j]@,
        decreases a.len() - i,
    {
        if a[i] != b[i] {
            assert(item_models(a@)[i as int] != item_models(b@)[i as int]);
            return false;
        }
        i += 1;
    }
    assert(item_models(a@) =~= item_models(b@));
    true
}

impl Clone for EtVal {
    fn clone(&self) -> (r: Self)
        ensures
            r@ == self@,
    {
        match self {
            EtVal::String(s) => EtVal::String(s.clone()),
            EtVal::Array(items) => EtVal::Array(clone_items(items)),
        }
    }
}

impl PartialEq for EtVal {
    fn eq(&self, other: &Self) -> (b: bool) {
        match (self, other) {
            (EtVal::String(a), EtVal::String(b)) => *a == *b,
            (EtVal::Array(a), EtVal::Array(b)) => same_items(a, b),
            _ => false,
        }
    }
}

impl PartialEqSpecImpl for EtVal {
    open spec fn obeys_eq_spec() -> bool {
        true
    }

    open spec fn eq_spec(&self, other: &Self) -> bool {
        self@ == other@
    }
}

impl EtVal {
    /// Does the value match the filter text?
    pub fn check_filter(&self, filter: &str) -> (r: bool)
        ensures
            r == value_matches(self@, filter@),
    {
        match self {
            EtVal::String(s) => {
                let lowered = to_lower(filter);
                let text = to_lower(s.as_str());
                str_contains(text.as_str(), lowered.as_str())
            },
            EtVal::Array(items) => {
                let mut i: usize = 0;
                while i < items.len()
                    invariant
                        i <= items.len(),
                        self@ == ValueModel::List(item_models(items@)),
                        forall|j: int|
                            0 <= j < i ==> !occurs_in(
                                #[trigger] item_text(item_models(items@)[j]),
                                filter@,
                            ),
                    decreases items.len() - i,
                {
                    let shown = items[i].to_string();
                    if str_contains(shown.as_str(), filter) {
                        assert(occurs_in(item_text(item_models(items@)[i as int]), filter@));
                        return true;
                    }
                    i += 1;
                }
                false
            },
        }
    }

    /// The text that shows the value: a single text as it is, a list as its
    /// elements with one space between neighbours.
    pub fn to_string(&self) -> (r: String)
        ensures
            r@ == value_text(self@),
    {
        match self {
            EtVal::String(s) => s.clone(),
            EtVal::Array(items) => {
                let mut r = String::new();
                let mut i: usize = 0;
                while i < items.len()
                    invariant
                        i <= items.len(),
                        r@ == joined(item_models(items@).take(i as int)),
                    decreases items.len() - i,
                {
                    let ghost before = item_models(items@).take(i as int);
                    let ghost after = item_models(items@).take(i + 1);
                    assert(after.drop_last() =~= before);
                    if i > 0 {
                        r.append(" ");
                        proof {
                            reveal_strlit(" ");
                        }
                    }
                    let shown = items[i].to_string();
                    r.append(shown.as_str());
                    i += 1;
                }
                assert(item_models(items@).take(items.len() as int) =~= item_models(items@));
                r
            },
        }
    }
}

impl Clone for TagEntryKey {
    fn clone(&self) -> (r: Self)
        ensures
            r@ == self@,
    {
        TagEntryKey {
            short_name: self.short_name.clone(),
            table: (self.table.0.clone(), self.table.1.clone()),
        }
    }
}

impl PartialEq for TagEntryKey {
    fn eq(&self, other: &Self) -> (b: bool) {
        self.short_name == other.short_name && self.table.0 == other.table.0 && self.table.1
            == other.table.1
    }
}

impl Eq for TagEntryKey {

}

impl PartialEqSpecImpl for TagEntryKey {
    open spec fn obeys_eq_spec() -> bool {
        true
    }

    open spec fn eq_spec(&self, other: &Self) -> bool {
        self@ == other@
    }
}

impl Clone for TagEntry {
    fn clone(&self) -> (r: Self)
        ensures
            r@ == self@,
    {
        TagEntry {
            short_name: self.short_name.clone(),
            instance: self.instance.clone(),
            binary_size: self.binary_size,
            name: self.name.clone(),
            id: self.id,
            table: (self.table.0.clone(), self.table.1.clone()),
            val: self.val.clone(),
            num: match &self.num {
                Some(n) => Some(n.clone()),
                None => None,
            },
            index: self.index,
        }
    }
}

impl PartialEq for TagEntry {
    fn eq(&self, other: &Self) -> (b: bool) {
        self.short_name == other.short_name && self.binary_size == other.binary_size && self.id
            == other.id && self.table.0 == other.table.0 && self.table.1 == other.table.1
            && self.val == other.val && self.index == other.index
    }
}

impl PartialEqSpecImpl for TagEntry {
    open spec fn obeys_eq_spec() -> bool {
        true
    }

    open spec fn eq_spec(&self, other: &Self) -> bool {
        same_entry(self@, other@)
    }
}

impl TagEntry {
    /// The filter predicate on this entry.
    pub fn check_filter(&self, filter: &str) -> (r: bool)
        ensures
            r == matches_filter(self@, filter@),
    {
        let lowered = to_lower(filter);
        if let Some(scope) = filter_scope(lowered.as_str()) {
            let table = to_lower(self.table_to_string().as_str());
            str_contains(table.as_str(), scope.as_str())
        } else {
            let name = to_lower(self.name.as_str());
            if str_contains(name.as_str(), lowered.as_str()) {
                return true;
            }
            let short_name = to_lower(self.short_name.as_str());
            if str_contains(short_name.as_str(), lowered.as_str()) {
                return true;
            }
            if self.val.check_filter(filter) {
                return true;
            }
            match &self.num {
                Some(n) => n.check_filter(filter),
                None => false,
            }
        }
    }

    /// The address of the page that documents the tags of this entry's
    /// group, for the caller to open.
    pub fn open_web_page(&self) -> (r: String)
        ensures
            r@ == web_page(self@.table.0),
    {
        if self.table.0 == "Exif".to_owned() {
            "https://exiftool.org/TagNames/EXIF.html".to_owned()
        } else {
            let mut r = "https://exiftool.org/TagNames/".to_owned();
            r.append(self.table.0.as_str());
            r.append(".html");
            r
        }
    }

    /// The table as one text.
    pub fn table_to_string(&self) -> (r: String)
        ensures
            r@ == table_text(self@.table),
    {
        if self.table.1.as_str().is_empty() {
            self.table.0.clone()
        } else {
            let mut r = self.table.0.clone();
            r.append("::");
            r.append(self.table.1.as_str());
            r
        }
    }

    /// The summary of the entry in several lines: label, short name, tag id,
    /// table, value, numeric value (the value where there is none) and, where
    /// the entry has one, its index.
    pub fn to_string(&self) -> (r: String)
        ensures
            r@ == summary(self@),
    {
        let mut r = "Name: ".to_owned();
        r.append(self.name.as_str());
        r.append("\nShort name: ");
        r.append(self.short_name.as_str());
        r.append("\nTag ID: ");
        match self.id {
            Some(id) => {
                r.append(decimal(id).as_str());
                r.append(" (");
                r.append(hex(id).as_str());
                r.append(")");
            },
            None => {
                r.append("Unknown");
            },
        }
        r.append("\nTag family: ");
        r.append(self.table_to_string().as_str());
        r.append("\nTag value: ");
        r.append(self.val.to_string().as_str());
        r.append("\nTag numerical value: ");
        match &self.num {
            Some(n) => {
                r.append(n.to_string().as_str());
            },
            None => {
                r.append(self.val.to_string().as_str());
            },
        }
        match self.index {
            Some(i) => {
                r.append("\nTag index: ");
                r.append(decimal(i).as_str());
            },
            None => {},
        }
        r
    }

    /// The arguments for the extractor that make it write this field's
    /// binary payload from the file at `image_path`. Fails when the field
    /// holds no binary payload.
    pub fn get_binary(&self, image_path: &str) -> (r: Result<Vec<String>, ()>)
        ensures
            r is Err <==> self@.binary_size is None,
            r matches Ok(args) ==> texts(args@) == binary_arguments(self@, image_path@),
    {
        if self.binary_size.is_none() {
            return Err(());
        }
        let mut tag = "-".to_owned();
        tag.append(self.short_name.as_str());
        let mut args: Vec<String> = Vec::new();
        args.push(image_path.to_owned());
        args.push(tag);
        args.push("-b".to_owned());
        Ok(args)
    }

    /// The identity of the entry.
    pub fn as_key(&self) -> (r: TagEntryKey)
        ensures
            r@ == key_of(self@),
    {
        TagEntryKey {
            short_name: self.short_name.clone(),
            table: (self.table.0.clone(), self.table.1.clone()),
        }
    }
}

impl Clone for ExiftoolEntry {
    fn clone(&self) -> (r: Self)
        ensures
            r.file_name@ == self.file_name@,
            entry_models(r.tag_entries@) == entry_models(self.tag_entries@),
    {
        let mut entries: Vec<TagEntry> = Vec::new();
        let mut i: usize = 0;
        while i < self.tag_entries.len()
            invariant
                i <= self.tag_entries.len(),
                entries.len() == i,
                forall|j: int| 0 <= j < i ==> entries@[j]@ == self.tag_entries@[j]@,
            decreases self.tag_entries.len() - i,
        {
            entries.push(self.tag_entries[i].clone());
            i += 1;
        }
        ExiftoolEntry { file_name: self.file_name.clone(), tag_entries: entries }
    }
}

} // verus!
