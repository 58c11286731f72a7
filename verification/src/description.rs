//! What the kernel tells of a key: its type, owner, group, permissions and
//! description, read from one line of text.
//!
//! The line has five fields with a semicolon between them:
//! `description;gid;uid;permissions;type`, the permissions in hexadecimal. The
//! kernel may put new fields in front of these, so the fields are counted from
//! the end of the line.

use vstd::prelude::*;
use vstd::string::StrSliceExecFns;
use crate::constants::{KeyPermissions, Permission, KEY_ALL_BITS};
use crate::text::{chars_of, parse_number, parse_u32};

verus! {

/// Where the last semicolon of a text stands, or -1 where it has none.
pub open spec fn last_separator(text: Seq<char>) -> int
    decreases text.len(),
{
    if text.len() == 0 {
        -1
    } else if text.last() == ';' {
        text.len() - 1
    } else {
        last_separator(text.drop_last())
    }
}

/// The field of a text with the given number, counted from the end: field 0 is
/// what follows the last semicolon. A text with fewer fields has none.
pub open spec fn field_from_tail(text: Seq<char>, number: nat) -> Option<Seq<char>>
    decreases number,
{
    let separator = last_separator(text);
    if number == 0 {
        Some(text.skip(separator + 1))
    } else if separator < 0 {
        None
    } else {
        field_from_tail(text.take(separator), (number - 1) as nat)
    }
}

/// Whether a text has the five fields of a description, or more.
pub open spec fn has_five_fields(text: Seq<char>) -> bool {
    field_from_tail(text, 4) is Some
}

/// Whether the owner, the group and the permissions of a description are
/// numbers.
pub open spec fn has_numbers(text: Seq<char>) -> bool {
    &&& field_from_tail(text, 1) matches Some(perms) && parse_u32(perms, true) is Some
    &&& field_from_tail(text, 2) matches Some(uid) && parse_u32(uid, false) is Some
    &&& field_from_tail(text, 3) matches Some(gid) && parse_u32(gid, false) is Some
}

/// Whether a text has fields in front of the five of a description.
pub open spec fn has_new_fields(text: Seq<char>) -> bool {
    field_from_tail(text, 5) is Some
}

/// The permission bits of a line that are not defined.
pub open spec fn undefined_permissions(text: Seq<char>) -> u32 {
    if has_five_fields(text) {
        match parse_u32(field_from_tail(text, 1)->0, true) {
            Some(bits) => bits & !KEY_ALL_BITS,
            None => 0,
        }
    } else {
        0
    }
}

/// Metadata of a key or keyring, seen as a mathematical value.
pub struct DescriptionView {
    pub type_: Seq<char>,
    pub uid: u32,
    pub gid: u32,
    pub perms: u32,
    pub description: Seq<char>,
}

/// What a line of five fields or more describes. Permission bits that are not
/// defined are left out.
pub open spec fn described(text: Seq<char>) -> DescriptionView {
    DescriptionView {
        type_: field_from_tail(text, 0)->0,
        perms: parse_u32(field_from_tail(text, 1)->0, true)->0 & KEY_ALL_BITS,
        uid: parse_u32(field_from_tail(text, 2)->0, false)->0,
        gid: parse_u32(field_from_tail(text, 3)->0, false)->0,
        description: field_from_tail(text, 4)->0,
    }
}

/// Structure representing the metadata about a key or keyring.
#[derive(Debug, Clone)]
pub struct Description {
    /// The type of the key.
    pub type_: String,
    /// The user owner of the key.
    pub uid: u32,
    /// The group owner of the key.
    pub gid: u32,
    /// The permissions of the key.
    pub perms: Permission,
    /// The plaintext description of the key.
    pub description: String,
}

impl View for Description {
    type V = DescriptionView;

    open spec fn view(&self) -> DescriptionView {
        DescriptionView {
            type_: self.type_@,
            uid: self.uid,
            gid: self.gid,
            perms: self.perms@,
            description: self.description@,
        }
    }
}

/// What reading a line as a description came to.
#[derive(Debug, Clone)]
pub enum Scanned {
    /// The line has fewer than five fields.
    TooShort,
    /// The line has its five fields, but one that should be a number is none.
    BadNumber,
    /// The line describes this.
    Described(Description),
}

impl View for Scanned {
    type V = Option<Option<DescriptionView>>;

    open spec fn view(&self) -> Option<Option<DescriptionView>> {
        match self {
            Scanned::TooShort => None,
            Scanned::BadNumber => Some(None),
            Scanned::Described(description) => Some(Some(description@)),
        }
    }
}

/// What a line reads as: nothing where it has fewer than five fields, and else
/// what it describes, if its numbers are numbers.
pub open spec fn scanned(text: Seq<char>) -> Option<Option<DescriptionView>> {
    if !has_five_fields(text) {
        None
    } else if !has_numbers(text) {
        Some(None)
    } else {
        Some(Some(described(text)))
    }
}

/// The number of semicolons in a text.
pub open spec fn separators(text: Seq<char>) -> nat
    decreases text.len(),
{
    if text.len() == 0 {
        0
    } else if text.last() == ';' {
        separators(text.drop_last()) + 1
    } else {
        separators(text.drop_last())
    }
}

/// A text has a last semicolon exactly where it has a semicolon at all, and
/// what stands before the last one has one semicolon less.
proof fn lemma_last_separator(text: Seq<char>)
    ensures
        -1 <= last_separator(text) < text.len(),
        last_separator(text) >= 0 <==> separators(text) >= 1,
        last_separator(text) >= 0 ==> separators(text.take(last_separator(text))) + 1
            == separators(text),
    decreases text.len(),
{
    if text.len() > 0 {
        if text.last() == ';' {
            assert(text.take(text.len() - 1) =~= text.drop_last());
        } else {
            lemma_last_separator(text.drop_last());
            let at = last_separator(text.drop_last());
            if at >= 0 {
                assert(text.take(at) =~= text.drop_last().take(at));
            }
        }
    }
}

/// A text has a field with a given number from its end exactly where it has at
/// least that many semicolons.
pub proof fn lemma_fields_by_separators(text: Seq<char>, number: nat)
    ensures
        field_from_tail(text, number) is Some <==> separators(text) >= number,
    decreases number,
{
    lemma_last_separator(text);
    if number > 0 && last_separator(text) >= 0 {
        lemma_fields_by_separators(text.take(last_separator(text)), (number - 1) as nat);
    }
}

/// A line is read as a description exactly where it has four semicolons or
/// more: five fields are needed, and more than five are no fault.
pub proof fn lemma_five_fields_are_four_separators(text: Seq<char>)
    ensures
        has_five_fields(text) <==> separators(text) >= 4,
        scanned(text) is None <==> separators(text) < 4,
{
    lemma_fields_by_separators(text, 4);
}

/// Where the last semicolon stands in a text that is made of two with a
/// semicolon between them.
proof fn lemma_last_separator_of_joined(head: Seq<char>, tail: Seq<char>)
    ensures
        last_separator(head + seq![';'] + tail) == if last_separator(tail) >= 0 {
            head.len() + 1 + last_separator(tail)
        } else {
            head.len() as int
        },
    decreases tail.len(),
{
    let whole = head + seq![';'] + tail;
    if tail.len() == 0 {
        assert(whole.last() == ';');
    } else {
        assert(whole.last() == tail.last());
        assert(whole.drop_last() =~= head + seq![';'] + tail.drop_last());
        if tail.last() != ';' {
            lemma_last_separator_of_joined(head, tail.drop_last());
        }
    }
}

/// The fields of a text, counted from its end, are those of its tail as far as
/// the tail has them.
proof fn lemma_fields_of_joined(head: Seq<char>, tail: Seq<char>, number: nat)
    requires
        field_from_tail(tail, number) is Some,
    ensures
        field_from_tail(head + seq![';'] + tail, number) == field_from_tail(tail, number),
    decreases number,
{
    let whole = head + seq![';'] + tail;
    lemma_last_separator_of_joined(head, tail);
    lemma_last_separator(tail);
    let at = last_separator(tail);
    if number == 0 {
        if at >= 0 {
            assert(whole.skip(head.len() + 1 + at + 1) =~= tail.skip(at + 1));
        } else {
            assert(whole.skip(head.len() as int + 1) =~= tail.skip(0));
        }
    } else {
        assert(whole.take(head.len() + 1 + at) =~= head + seq![';'] + tail.take(at));
        lemma_fields_of_joined(head, tail.take(at), (number - 1) as nat);
    }
}

/// Fields that the kernel puts in front of a line change nothing in what the
/// line describes: the five fields at the end are read, and what stands before
/// them is left alone.
pub proof fn lemma_leading_fields_are_ignored(prefix: Seq<char>, line: Seq<char>)
    requires
        has_five_fields(line),
    ensures
        scanned(prefix + seq![';'] + line) == scanned(line),
{
    reveal_with_fuel(field_from_tail, 5);
    lemma_fields_of_joined(prefix, line, 0);
    lemma_fields_of_joined(prefix, line, 1);
    lemma_fields_of_joined(prefix, line, 2);
    lemma_fields_of_joined(prefix, line, 3);
    lemma_fields_of_joined(prefix, line, 4);
}

/// Finds the last semicolon among the first `end` characters.
fn find_last(chars: &Vec<char>, end: usize) -> (found: Option<usize>)
    requires
        end <= chars.len(),
    ensures
        found matches Some(i) ==> i < end && last_separator(chars@.take(end as int)) == i,
        found is None ==> last_separator(chars@.take(end as int)) == -1,
{
    let mut i: usize = end;
    while i > 0
        invariant
            i <= end <= chars.len(),
            last_separator(chars@.take(end as int)) == last_separator(chars@.take(i as int)),
        decreases i,
    {
        assert(chars@.take(i as int).drop_last() =~= chars@.take(i - 1));
        if chars[i - 1] == ';' {
            return Some(i - 1);
        }
        i -= 1;
    }
    None
}

/// Where the five fields at the end of a line stand.
struct Fields {
    /// The separator before the type.
    type_at: usize,
    /// The separator before the permissions.
    perms_at: usize,
    /// The separator before the owner.
    uid_at: usize,
    /// The separator before the group.
    gid_at: usize,
    /// Where the description starts: after a separator, or at the start of the
    /// line.
    start: usize,
}

impl Fields {
    /// Whether these are the places of the fields of a text.
    spec fn of(self, text: Seq<char>) -> bool {
        &&& self.start <= self.gid_at < self.uid_at < self.perms_at < self.type_at < text.len()
        &&& field_from_tail(text, 0) == Some(text.subrange(self.type_at + 1, text.len() as int))
        &&& field_from_tail(text, 1) == Some(text.subrange(self.perms_at + 1, self.type_at as int))
        &&& field_from_tail(text, 2) == Some(text.subrange(self.uid_at + 1, self.perms_at as int))
        &&& field_from_tail(text, 3) == Some(text.subrange(self.gid_at + 1, self.uid_at as int))
        &&& field_from_tail(text, 4) == Some(text.subrange(self.start as int, self.gid_at as int))
        &&& self.start > 0 <==> has_new_fields(text)
    }
}

/// Finds the five fields at the end of a line.
fn locate(chars: &Vec<char>) -> (fields: Option<Fields>)
    ensures
        fields is Some <==> has_five_fields(chars@),
        fields matches Some(f) ==> f.of(chars@),
{
    let len: usize = chars.len();
    let ghost text = chars@;
    assert(text.take(len as int) =~= text);
    proof {
        reveal_with_fuel(field_from_tail, 6);
    }
    let type_at: usize = match find_last(chars, len) {
        Some(at) => at,
        None => {
            return None;
        },
    };
    let ghost upto_perms = text.take(type_at as int);
    let perms_at: usize = match find_last(chars, type_at) {
        Some(at) => at,
        None => {
            return None;
        },
    };
    let ghost upto_uid = upto_perms.take(perms_at as int);
    assert(upto_uid =~= text.take(perms_at as int));
    let uid_at: usize = match find_last(chars, perms_at) {
        Some(at) => at,
        None => {
            return None;
        },
    };
    let ghost upto_gid = upto_uid.take(uid_at as int);
    assert(upto_gid =~= text.take(uid_at as int));
    let gid_at: usize = match find_last(chars, uid_at) {
        Some(at) => at,
        None => {
            return None;
        },
    };
    let ghost upto_description = upto_gid.take(gid_at as int);
    assert(upto_description =~= text.take(gid_at as int));
    let start: usize = match find_last(chars, gid_at) {
        Some(at) => at + 1,
        None => 0,
    };
    proof {
        assert(field_from_tail(text, 0) == Some(text.skip(type_at + 1)));
        assert(field_from_tail(text, 1) == Some(upto_perms.skip(perms_at + 1)));
        assert(field_from_tail(text, 2) == Some(upto_uid.skip(uid_at + 1)));
        assert(field_from_tail(text, 3) == Some(upto_gid.skip(gid_at + 1)));
        assert(field_from_tail(text, 4) == Some(upto_description.skip(start as int)));
        assert(text.skip(type_at + 1) =~= text.subrange(type_at + 1, len as int));
        assert(upto_perms.skip(perms_at + 1) =~= text.subrange(perms_at + 1, type_at as int));
        assert(upto_uid.skip(uid_at + 1) =~= text.subrange(uid_at + 1, perms_at as int));
        assert(upto_gid.skip(gid_at + 1) =~= text.subrange(gid_at + 1, uid_at as int));
        assert(upto_description.skip(start as int) =~= text.subrange(start as int, gid_at as int));
    }
    Some(Fields { type_at, perms_at, uid_at, gid_at, start })
}

impl Description {
    /// Reads a line of the kernel whatever it holds.
    pub fn scan(desc: &str) -> (result: Scanned)
        ensures
            result@ == scanned(desc@),
    {
        let chars = chars_of(desc);
        let fields = match locate(&chars) {
            Some(fields) => fields,
            None => {
                return Scanned::TooShort;
            },
        };
        let bits = parse_number(&chars, fields.perms_at + 1, fields.type_at, true);
        let uid = parse_number(&chars, fields.uid_at + 1, fields.perms_at, false);
        let gid = parse_number(&chars, fields.gid_at + 1, fields.uid_at, false);
        match (bits, uid, gid) {
            (Some(bits), Some(uid), Some(gid)) => {
                let type_ = desc.substring_char(fields.type_at + 1, chars.len()).to_owned();
                let description = desc.substring_char(fields.start, fields.gid_at).to_owned();
                Scanned::Described(
                    Description {
                        type_,
                        uid,
                        gid,
                        perms: Permission::from_bits_truncate(bits),
                        description,
                    },
                )
            },
            _ => Scanned::BadNumber,
        }
    }

    /// Whether a line has fields in front of the five that are read. The kernel
    /// may add such fields, and they are left alone.
    pub fn new_fields(desc: &str) -> (found: bool)
        ensures
            found == has_new_fields(desc@),
    {
        let chars = chars_of(desc);
        match locate(&chars) {
            Some(fields) => fields.start > 0,
            None => {
                proof {
                    reveal_with_fuel(field_from_tail, 6);
                }
                false
            },
        }
    }

    /// The permission bits of a line that are not defined. They are not part of
    /// what the line is read as.
    pub fn undefined_bits(desc: &str) -> (bits: KeyPermissions)
        ensures
            bits == undefined_permissions(desc@),
    {
        let chars = chars_of(desc);
        match locate(&chars) {
            Some(fields) => match parse_number(
                &chars,
                fields.perms_at + 1,
                fields.type_at,
                true,
            ) {
                Some(bits) => bits & !KEY_ALL_BITS,
                None => 0,
            },
            None => 0,
        }
    }

    /// Reads a line of the kernel: the metadata that it holds, or nothing where
    /// the line has fewer than five fields.
    pub fn parse(desc: &str) -> (description: Option<Description>)
        requires
            has_five_fields(desc@) ==> has_numbers(desc@),
        ensures
            description is Some <==> has_five_fields(desc@),
            description matches Some(d) ==> d@ == described(desc@),
    {
        match Description::scan(desc) {
            Scanned::Described(description) => Some(description),
            Scanned::TooShort => None,
            Scanned::BadNumber => None,
        }
    }
}

} // verus!
