use vstd::prelude::*;

use crate::models::{charge_name, status_name, ReqCharge, ReqStatus, Request, UpdateRequest};

verus! {

/// A field of a stored request that a patch can write.
#[derive(Debug, Clone, Copy, PartialEq, Eq, Structural)]
pub enum Field {
    Name,
    Email,
    StartDate,
    EndDate,
    StartTime,
    EndTime,
    ChargeAgainst,
    Manager,
    Status,
}

/// The key under which a field is stored.
pub open spec fn field_key(f: Field) -> Seq<char> {
    match f {
        Field::Name => "name"@,
        Field::Email => "email"@,
        Field::StartDate => "start_date"@,
        Field::EndDate => "end_date"@,
        Field::StartTime => "start_time"@,
        Field::EndTime => "end_time"@,
        Field::ChargeAgainst => "charge_against"@,
        Field::Manager => "manager"@,
        Field::Status => "status"@,
    }
}

impl Field {
    /// The key under which this field is stored.
    pub fn key(&self) -> (r: &'static str)
        ensures
            r@ == field_key(*self),
    {
        match self {
            Field::Name => "name",
            Field::Email => "email",
            Field::StartDate => "start_date",
            Field::EndDate => "end_date",
            Field::StartTime => "start_time",
            Field::EndTime => "end_time",
            Field::ChargeAgainst => "charge_against",
            Field::Manager => "manager",
            Field::Status => "status",
        }
    }
}

/// The field-level writes that a patch asks for, each value in stored form.
#[derive(Debug, Clone)]
pub struct WriteSet {
    pub entries: Vec<(Field, String)>,
}

pub open spec fn entries_view(v: Seq<(Field, String)>) -> Seq<(Field, Seq<char>)> {
    v.map_values(|e: (Field, String)| (e.0, e.1@))
}

impl View for WriteSet {
    type V = Seq<(Field, Seq<char>)>;

    open spec fn view(&self) -> Seq<(Field, Seq<char>)> {
        entries_view(self.entries@)
    }
}

pub open spec fn opt_text(o: Option<String>) -> Option<Seq<char>> {
    match o {
        Some(s) => Some(s@),
        None => None,
    }
}

/// What a patch asks to be stored under `f`, if anything.
pub open spec fn patch_value(p: UpdateRequest, f: Field) -> Option<Seq<char>> {
    match f {
        Field::Name => opt_text(p.name),
        Field::Email => opt_text(p.email),
        Field::StartDate => opt_text(p.start_date),
        Field::EndDate => opt_text(p.end_date),
        Field::StartTime => opt_text(p.start_time),
        Field::EndTime => opt_text(p.end_time),
        Field::ChargeAgainst => match p.charge_against {
            Some(c) => Some(charge_name(c)),
            None => None,
        },
        Field::Manager => opt_text(p.manager),
        Field::Status => match p.status {
            Some(s) => Some(status_name(s)),
            None => None,
        },
    }
}

pub open spec fn entry_for(p: UpdateRequest, f: Field) -> Seq<(Field, Seq<char>)> {
    match patch_value(p, f) {
        Some(v) => seq![(f, v)],
        None => Seq::empty(),
    }
}

/// The write set of a patch: one entry for each field present, in a fixed
/// field order (enumerated fields first).
pub open spec fn patch_entries(p: UpdateRequest) -> Seq<(Field, Seq<char>)> {
    entry_for(p, Field::ChargeAgainst) + entry_for(p, Field::Status) + entry_for(p, Field::Name)
        + entry_for(p, Field::Email) + entry_for(p, Field::StartDate) + entry_for(
        p,
        Field::EndDate,
    ) + entry_for(p, Field::StartTime) + entry_for(p, Field::EndTime) + entry_for(
        p,
        Field::Manager,
    )
}

/// True when the patch holds no field at all.
pub open spec fn patch_is_empty(p: UpdateRequest) -> bool {
    p.name is None && p.email is None && p.start_date is None && p.end_date is None
        && p.start_time is None && p.end_time is None && p.charge_against is None
        && p.manager is None && p.status is None
}

fn push_text(entries: &mut Vec<(Field, String)>, f: Field, v: &Option<String>)
    ensures
        entries_view(final(entries)@) == entries_view(old(entries)@) + match opt_text(*v) {
            Some(s) => seq![(f, s)],
            None => Seq::<(Field, Seq<char>)>::empty(),
        },
{
    match v {
        Some(s) => {
            entries.push((f, s.clone()));
        },
        None => {},
    }
    assert(entries_view(entries@) =~= entries_view(old(entries)@) + match opt_text(*v) {
        Some(s) => seq![(f, s)],
        None => Seq::<(Field, Seq<char>)>::empty(),
    });
}

/// Builds the write set of a patch: exactly the fields present in it, enumerated
/// fields under their canonical names. Other fields of the stored record play no part.
pub fn merge_patch(p: &UpdateRequest) -> (r: WriteSet)
    ensures
        r@ == patch_entries(*p),
{
    let mut entries: Vec<(Field, String)> = Vec::new();
    assert(entries_view(entries@) =~= Seq::empty());
    let charge: Option<String> = match p.charge_against {
        Some(c) => Some(c.as_str().to_owned()),
        None => None,
    };
    push_text(&mut entries, Field::ChargeAgainst, &charge);
    let status: Option<String> = match p.status {
        Some(s) => Some(s.as_str().to_owned()),
        None => None,
    };
    push_text(&mut entries, Field::Status, &status);
    push_text(&mut entries, Field::Name, &p.name);
    push_text(&mut entries, Field::Email, &p.email);
    push_text(&mut entries, Field::StartDate, &p.start_date);
    push_text(&mut entries, Field::EndDate, &p.end_date);
    push_text(&mut entries, Field::StartTime, &p.start_time);
    push_text(&mut entries, Field::EndTime, &p.end_time);
    push_text(&mut entries, Field::Manager, &p.manager);
    let r = WriteSet { entries };
    assert(r@ =~= patch_entries(*p));
    r
}


impl WriteSet {
    /// True when the write set holds no write.
    pub fn is_empty(&self) -> (r: bool)
        ensures
            r == (self@.len() == 0),
    {
        self.entries.len() == 0
    }
}

/// The entries of `a` name exactly the fields of `fs` that `p` holds, once each,
/// each with the value that `p` gives it.
pub open spec fn entries_exact(a: Seq<(Field, Seq<char>)>, p: UpdateRequest, fs: Set<Field>) -> bool {
    &&& forall|f: Field|
        (fs.contains(f) && patch_value(p, f) is Some) <==> exists|i: int|
            0 <= i < a.len() && #[trigger] a[i].0 == f
    &&& forall|i: int| 0 <= i < a.len() ==> patch_value(p, #[trigger] a[i].0) == Some(a[i].1)
    &&& forall|i: int, j: int| 0 <= i < j < a.len() ==> #[trigger] a[i].0 != #[trigger] a[j].0
}

proof fn lemma_extend(a: Seq<(Field, Seq<char>)>, p: UpdateRequest, fs: Set<Field>, f: Field)
    requires
        entries_exact(a, p, fs),
        !fs.contains(f),
    ensures
        entries_exact(a + entry_for(p, f), p, fs.insert(f)),
{
    let b = a + entry_for(p, f);
    assert forall|g: Field|
        (fs.insert(f).contains(g) && patch_value(p, g) is Some) implies exists|i: int|
            0 <= i < b.len() && #[trigger] b[i].0 == g by {
        if g == f {
            assert(b[a.len() as int].0 == g);
        } else {
            let i = choose|i: int| 0 <= i < a.len() && #[trigger] a[i].0 == g;
            assert(b[i].0 == g);
        }
    }
    assert forall|g: Field|
        (exists|i: int| 0 <= i < b.len() && #[trigger] b[i].0 == g) implies (fs.insert(
            f,
        ).contains(g) && patch_value(p, g) is Some) by {
        let i = choose|i: int| 0 <= i < b.len() && #[trigger] b[i].0 == g;
        if i < a.len() {
            assert(a[i].0 == g);
        }
    }
    assert forall|i: int| 0 <= i < b.len() implies patch_value(p, #[trigger] b[i].0) == Some(
        b[i].1,
    ) by {
        if i < a.len() {
            assert(b[i] == a[i]);
        }
    }
    assert forall|i: int, j: int| 0 <= i < j < b.len() implies #[trigger] b[i].0
        != #[trigger] b[j].0 by {
        if j >= a.len() {
            assert(a[i].0 == b[i].0);
        } else {
            assert(a[i] == b[i] && a[j] == b[j]);
        }
    }
}

/// The write set of a patch holds exactly the fields present in the patch, each
/// once, and each with the patch's value in stored form (an enumerated field under
/// its canonical name).
pub proof fn law_write_set_is_exact(p: UpdateRequest)
    ensures
        entries_exact(patch_entries(p), p, Set::full()),
        forall|f: Field|
            (patch_value(p, f) is Some) <==> exists|i: int|
                0 <= i < patch_entries(p).len() && #[trigger] patch_entries(p)[i].0 == f,
        forall|i: int|
            0 <= i < patch_entries(p).len() ==> patch_value(p, #[trigger] patch_entries(p)[i].0)
                == Some(patch_entries(p)[i].1),
        p.charge_against matches Some(c) ==> patch_value(p, Field::ChargeAgainst) == Some(
            charge_name(c),
        ),
        p.status matches Some(s) ==> patch_value(p, Field::Status) == Some(status_name(s)),
{
    let e = Seq::<(Field, Seq<char>)>::empty();
    let s0 = Set::<Field>::empty();
    assert(entries_exact(e, p, s0));
    assert(e + entry_for(p, Field::ChargeAgainst) =~= entry_for(p, Field::ChargeAgainst));
    lemma_extend(e, p, s0, Field::ChargeAgainst);
    let a1 = entry_for(p, Field::ChargeAgainst);
    let s1 = s0.insert(Field::ChargeAgainst);
    lemma_extend(a1, p, s1, Field::Status);
    let a2 = a1 + entry_for(p, Field::Status);
    let s2 = s1.insert(Field::Status);
    lemma_extend(a2, p, s2, Field::Name);
    let a3 = a2 + entry_for(p, Field::Name);
    let s3 = s2.insert(Field::Name);
    lemma_extend(a3, p, s3, Field::Email);
    let a4 = a3 + entry_for(p, Field::Email);
    let s4 = s3.insert(Field::Email);
    lemma_extend(a4, p, s4, Field::StartDate);
    let a5 = a4 + entry_for(p, Field::StartDate);
    let s5 = s4.insert(Field::StartDate);
    lemma_extend(a5, p, s5, Field::EndDate);
    let a6 = a5 + entry_for(p, Field::EndDate);
    let s6 = s5.insert(Field::EndDate);
    lemma_extend(a6, p, s6, Field::StartTime);
    let a7 = a6 + entry_for(p, Field::StartTime);
    let s7 = s6.insert(Field::StartTime);
    lemma_extend(a7, p, s7, Field::EndTime);
    let a8 = a7 + entry_for(p, Field::EndTime);
    let s8 = s7.insert(Field::EndTime);
    lemma_extend(a8, p, s8, Field::Manager);
    let s9 = s8.insert(Field::Manager);
    assert(s9 =~= Set::full()) by {
        assert forall|f: Field| s9.contains(f) by {
            match f {
                _ => {},
            }
        }
    }
    let all = patch_entries(p);
    assert(entries_exact(all, p, Set::full()));
    assert forall|f: Field|
        (patch_value(p, f) is Some) <==> exists|i: int| 0 <= i < all.len() && #[trigger] all[i].0 == f by {
        assert(Set::<Field>::full().contains(f));
    }
}



pub open spec fn keep_or(o: Option<String>, s: String) -> String {
    match o {
        Some(v) => v,
        None => s,
    }
}

/// The record that results from a patch: each field present in the patch takes
/// the patch's value; every other field, and the identifier, stay as they were.
pub open spec fn patched(r: Request, p: UpdateRequest) -> Request {
    Request {
        id: r.id,
        name: keep_or(p.name, r.name),
        email: keep_or(p.email, r.email),
        start_date: keep_or(p.start_date, r.start_date),
        end_date: keep_or(p.end_date, r.end_date),
        start_time: keep_or(p.start_time, r.start_time),
        end_time: keep_or(p.end_time, r.end_time),
        charge_against: match p.charge_against {
            Some(c) => c,
            None => r.charge_against,
        },
        manager: keep_or(p.manager, r.manager),
        status: match p.status {
            Some(s) => s,
            None => r.status,
        },
    }
}

/// What a record holds under `f`, in stored form.
pub open spec fn record_value(r: Request, f: Field) -> Seq<char> {
    match f {
        Field::Name => r.name@,
        Field::Email => r.email@,
        Field::StartDate => r.start_date@,
        Field::EndDate => r.end_date@,
        Field::StartTime => r.start_time@,
        Field::EndTime => r.end_time@,
        Field::ChargeAgainst => charge_name(r.charge_against),
        Field::Manager => r.manager@,
        Field::Status => status_name(r.status),
    }
}

fn take_or_keep(o: &Option<String>, s: &mut String)
    ensures
        *final(s) == keep_or(*o, *old(s)),
{
    match o {
        Some(v) => {
            *s = v.clone();
        },
        None => {},
    }
}

impl Request {
    /// Applies a patch to this record in place: only the fields present in the
    /// patch change.
    pub fn apply_patch(&mut self, p: &UpdateRequest)
        ensures
            *final(self) == patched(*old(self), *p),
    {
        take_or_keep(&p.name, &mut self.name);
        take_or_keep(&p.email, &mut self.email);
        take_or_keep(&p.start_date, &mut self.start_date);
        take_or_keep(&p.end_date, &mut self.end_date);
        take_or_keep(&p.start_time, &mut self.start_time);
        take_or_keep(&p.end_time, &mut self.end_time);
        take_or_keep(&p.manager, &mut self.manager);
        match p.charge_against {
            Some(c) => {
                self.charge_against = c;
            },
            None => {},
        }
        match p.status {
            Some(st) => {
                self.status = st;
            },
            None => {},
        }
    }
}

/// A patch never clears what it omits: after it, each field holds the patch's
/// value where the patch has one and its old value elsewhere, and the identifier
/// is kept.
pub proof fn law_patch_keeps_omitted_fields(r: Request, p: UpdateRequest, f: Field)
    ensures
        patched(r, p).id == r.id,
        record_value(patched(r, p), f) == match patch_value(p, f) {
            Some(v) => v,
            None => record_value(r, f),
        },
{
}

/// A patch with no field present writes nothing and leaves the record as it was.
pub proof fn law_empty_patch_is_noop(r: Request, p: UpdateRequest)
    requires
        patch_is_empty(p),
    ensures
        patch_entries(p).len() == 0,
        patched(r, p) == r,
{
}

} // verus!
