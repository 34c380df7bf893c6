//! Reading the fields of a record out of a document: scalars, sequences of
//! scalars, and the member of an object that holds a field.

use vstd::prelude::*;
use crate::instant::{instant_exists, is_instant};
use crate::json::{lemma_array_view, Json, Real, Tree};
use crate::schema::{Absence, Fault, Field};

verus! {

/// A number read as a double.
pub open spec fn double(tree: Tree) -> Option<Real> {
    match tree {
        Tree::Number(n) => n.real,
        _ => None,
    }
}

/// A text.
pub open spec fn text(tree: Tree) -> Option<Seq<char>> {
    match tree {
        Tree::Text(t) => Some(t),
        _ => None,
    }
}

/// An integer number of seconds, as far as an `i64` holds it.
pub open spec fn seconds(tree: Tree) -> Option<i64> {
    match tree {
        Tree::Number(n) => n.signed,
        _ => None,
    }
}

/// A double or a gap: `null` stands for a sample without a value.
pub open spec fn optional_real(tree: Tree) -> Option<Option<Real>> {
    match tree {
        Tree::Null => Some(None),
        Tree::Number(n) => match n.real {
            Some(x) => Some(Some(x)),
            None => None,
        },
        _ => None,
    }
}

/// A count or a gap: `null` stands for a sample without a value.
pub open spec fn optional_count(tree: Tree) -> Option<Option<u64>> {
    match tree {
        Tree::Null => Some(None),
        Tree::Number(n) => match n.unsigned {
            Some(x) => Some(Some(x)),
            None => None,
        },
        _ => None,
    }
}

/// An array of doubles and gaps.
pub open spec fn real_array(tree: Tree) -> Option<Seq<Option<Real>>> {
    match tree {
        Tree::Array(items) => if forall|i: int|
            0 <= i < items.len() ==> (#[trigger] optional_real(items[i])) is Some {
            Some(Seq::new(items.len(), |i: int| optional_real(items[i]).unwrap()))
        } else {
            None
        },
        _ => None,
    }
}

/// An array of counts and gaps.
pub open spec fn count_array(tree: Tree) -> Option<Seq<Option<u64>>> {
    match tree {
        Tree::Array(items) => if forall|i: int|
            0 <= i < items.len() ==> (#[trigger] optional_count(items[i])) is Some {
            Some(Seq::new(items.len(), |i: int| optional_count(items[i]).unwrap()))
        } else {
            None
        },
        _ => None,
    }
}

/// An array of numbers of seconds.
pub open spec fn seconds_array(tree: Tree) -> Option<Seq<i64>> {
    match tree {
        Tree::Array(items) => if forall|i: int|
            0 <= i < items.len() ==> (#[trigger] seconds(items[i])) is Some {
            Some(Seq::new(items.len(), |i: int| seconds(items[i]).unwrap()))
        } else {
            None
        },
        _ => None,
    }
}

/// The value that a record reads `field` from: the member under the field's
/// key. A member that is absent counts by the field table: the document is
/// rejected, or the field goes without a value. So does `null` under a field
/// that may be there as nothing.
pub open spec fn locate(object: Tree, field: Field) -> Result<Option<Tree>, Fault> {
    match object.member(field.spec_key()) {
        Some(value) => if field.spec_absence() == Absence::Nothing && value is Null {
            Ok(None)
        } else {
            Ok(Some(value))
        },
        None => if field.spec_absence() == Absence::Rejected {
            Err(Fault::Missing(field))
        } else {
            Ok(None)
        },
    }
}

/// A field that holds a text.
pub open spec fn text_field(object: Tree, field: Field) -> Result<Seq<char>, Fault> {
    match locate(object, field) {
        Err(fault) => Err(fault),
        Ok(None) => Err(Fault::Missing(field)),
        Ok(Some(value)) => match text(value) {
            Some(t) => Ok(t),
            None => Err(Fault::Mismatch(field)),
        },
    }
}

/// A field that holds a double.
pub open spec fn real_field(object: Tree, field: Field) -> Result<Real, Fault> {
    match locate(object, field) {
        Err(fault) => Err(fault),
        Ok(None) => Err(Fault::Missing(field)),
        Ok(Some(value)) => match double(value) {
            Some(x) => Ok(x),
            None => Err(Fault::Mismatch(field)),
        },
    }
}

/// A field that holds an instant, in seconds since the epoch.
pub open spec fn instant_field(object: Tree, field: Field) -> Result<i64, Fault> {
    match locate(object, field) {
        Err(fault) => Err(fault),
        Ok(None) => Err(Fault::Missing(field)),
        Ok(Some(value)) => match seconds(value) {
            Some(s) => if is_instant(s) {
                Ok(s)
            } else {
                Err(Fault::Mismatch(field))
            },
            None => Err(Fault::Mismatch(field)),
        },
    }
}

/// A field that holds a sequence of doubles and gaps.
pub open spec fn real_series(object: Tree, field: Field) -> Result<Seq<Option<Real>>, Fault> {
    match locate(object, field) {
        Err(fault) => Err(fault),
        Ok(None) => Ok(Seq::empty()),
        Ok(Some(value)) => match real_array(value) {
            Some(s) => Ok(s),
            None => Err(Fault::Mismatch(field)),
        },
    }
}

/// A field that holds a sequence of counts and gaps.
pub open spec fn count_series(object: Tree, field: Field) -> Result<Seq<Option<u64>>, Fault> {
    match locate(object, field) {
        Err(fault) => Err(fault),
        Ok(None) => Ok(Seq::empty()),
        Ok(Some(value)) => match count_array(value) {
            Some(s) => Ok(s),
            None => Err(Fault::Mismatch(field)),
        },
    }
}

/// A field that holds a sequence of numbers of seconds.
pub open spec fn seconds_series(object: Tree, field: Field) -> Result<Seq<i64>, Fault> {
    match locate(object, field) {
        Err(fault) => Err(fault),
        Ok(None) => Ok(Seq::empty()),
        Ok(Some(value)) => match seconds_array(value) {
            Some(s) => Ok(s),
            None => Err(Fault::Mismatch(field)),
        },
    }
}

/// Reads a double or a gap.
pub fn read_optional_real(json: &Json) -> (reading: Option<Option<Real>>)
    ensures
        reading == optional_real(json@),
{
    match json {
        Json::Null => Some(None),
        Json::Number(n) => match n.real {
            Some(x) => Some(Some(x)),
            None => None,
        },
        _ => None,
    }
}

/// Reads a count or a gap.
pub fn read_optional_count(json: &Json) -> (reading: Option<Option<u64>>)
    ensures
        reading == optional_count(json@),
{
    match json {
        Json::Null => Some(None),
        Json::Number(n) => match n.unsigned {
            Some(x) => Some(Some(x)),
            None => None,
        },
        _ => None,
    }
}

/// Reads an integer number of seconds.
pub fn read_seconds(json: &Json) -> (reading: Option<i64>)
    ensures
        reading == seconds(json@),
{
    match json {
        Json::Number(n) => n.signed,
        _ => None,
    }
}

/// Reads an array of doubles and gaps.
pub fn read_real_array(json: &Json) -> (reading: Option<Vec<Option<Real>>>)
    ensures
        match real_array(json@) {
            Some(s) => reading matches Some(v) && v@ == s,
            None => reading is None,
        },
{
    match json {
        Json::Array(items) => {
            proof {
                lemma_array_view(*json);
            }
            let ghost model = json@->Array_0;
            let mut out: Vec<Option<Real>> = Vec::new();
            let mut i: usize = 0;
            while i < items.len()
                invariant
                    i <= items.len(),
                    json@ == Tree::Array(model),
                    model.len() == items.len(),
                    forall|k: int| 0 <= k < items.len() ==> model[k] == #[trigger] items[k]@,
                    out.len() == i,
                    forall|k: int| 0 <= k < i ==> #[trigger] optional_real(model[k]) == Some(out[k]),
                decreases items.len() - i,
            {
                match read_optional_real(&items[i]) {
                    Some(x) => out.push(x),
                    None => {
                        assert(optional_real(model[i as int]) is None);
                        return None;
                    },
                }
                i += 1;
            }
            assert(out@ =~= real_array(json@).unwrap());
            Some(out)
        },
        _ => None,
    }
}

/// Reads an array of counts and gaps.
pub fn read_count_array(json: &Json) -> (reading: Option<Vec<Option<u64>>>)
    ensures
        match count_array(json@) {
            Some(s) => reading matches Some(v) && v@ == s,
            None => reading is None,
        },
{
    match json {
        Json::Array(items) => {
            proof {
                lemma_array_view(*json);
            }
            let ghost model = json@->Array_0;
            let mut out: Vec<Option<u64>> = Vec::new();
            let mut i: usize = 0;
            while i < items.len()
                invariant
                    i <= items.len(),
                    json@ == Tree::Array(model),
                    model.len() == items.len(),
                    forall|k: int| 0 <= k < items.len() ==> model[k] == #[trigger] items[k]@,
                    out.len() == i,
                    forall|k: int| 0 <= k < i ==> #[trigger] optional_count(model[k]) == Some(out[k]),
                decreases items.len() - i,
            {
                match read_optional_count(&items[i]) {
                    Some(x) => out.push(x),
                    None => {
                        assert(optional_count(model[i as int]) is None);
                        return None;
                    },
                }
                i += 1;
            }
            assert(out@ =~= count_array(json@).unwrap());
            Some(out)
        },
        _ => None,
    }
}

/// Reads an array of numbers of seconds.
pub fn read_seconds_array(json: &Json) -> (reading: Option<Vec<i64>>)
    ensures
        match seconds_array(json@) {
            Some(s) => reading matches Some(v) && v@ == s,
            None => reading is None,
        },
{
    match json {
        Json::Array(items) => {
            proof {
                lemma_array_view(*json);
            }
            let ghost model = json@->Array_0;
            let mut out: Vec<i64> = Vec::new();
            let mut i: usize = 0;
            while i < items.len()
                invariant
                    i <= items.len(),
                    json@ == Tree::Array(model),
                    model.len() == items.len(),
                    forall|k: int| 0 <= k < items.len() ==> model[k] == #[trigger] items[k]@,
                    out.len() == i,
                    forall|k: int| 0 <= k < i ==> #[trigger] seconds(model[k]) == Some(out[k]),
                decreases items.len() - i,
            {
                match read_seconds(&items[i]) {
                    Some(x) => out.push(x),
                    None => {
                        assert(seconds(model[i as int]) is None);
                        return None;
                    },
                }
                i += 1;
            }
            assert(out@ =~= seconds_array(json@).unwrap());
            Some(out)
        },
        _ => None,
    }
}


/// Finds the value that a record reads `field` from.
pub fn find_field<'a>(object: &'a Json, field: Field) -> (found: Result<Option<&'a Json>, Fault>)
    ensures
        match locate(object@, field) {
            Ok(Some(tree)) => found matches Ok(Some(json)) && json@ == tree,
            Ok(None) => found matches Ok(None),
            Err(fault) => found matches Err(f) && f == fault,
        },
{
    match object.member(field.key()) {
        Some(value) => {
            let nothing = match field.absence() {
                Absence::Nothing => true,
                _ => false,
            };
            let null = match value {
                Json::Null => true,
                _ => false,
            };
            if nothing && null {
                Ok(None)
            } else {
                Ok(Some(value))
            }
        },
        None => match field.absence() {
            Absence::Rejected => Err(Fault::Missing(field)),
            _ => Ok(None),
        },
    }
}

/// Reads a field that holds a text.
pub fn read_text_field(object: &Json, field: Field) -> (reading: Result<String, Fault>)
    ensures
        match text_field(object@, field) {
            Ok(t) => reading matches Ok(s) && s@ == t,
            Err(fault) => reading matches Err(f) && f == fault,
        },
{
    match find_field(object, field) {
        Err(fault) => Err(fault),
        Ok(None) => Err(Fault::Missing(field)),
        Ok(Some(value)) => match value {
            Json::Text(t) => Ok(t.clone()),
            _ => Err(Fault::Mismatch(field)),
        },
    }
}

/// Reads a field that holds a double.
pub fn read_real_field(object: &Json, field: Field) -> (reading: Result<Real, Fault>)
    ensures
        reading == real_field(object@, field),
{
    match find_field(object, field) {
        Err(fault) => Err(fault),
        Ok(None) => Err(Fault::Missing(field)),
        Ok(Some(value)) => match value {
            Json::Number(n) => match n.real {
                Some(x) => Ok(x),
                None => Err(Fault::Mismatch(field)),
            },
            _ => Err(Fault::Mismatch(field)),
        },
    }
}

/// Reads a field that holds an instant.
pub fn read_instant_field(object: &Json, field: Field) -> (reading: Result<i64, Fault>)
    ensures
        reading == instant_field(object@, field),
{
    match find_field(object, field) {
        Err(fault) => Err(fault),
        Ok(None) => Err(Fault::Missing(field)),
        Ok(Some(value)) => match read_seconds(value) {
            Some(s) => if instant_exists(s) {
                Ok(s)
            } else {
                Err(Fault::Mismatch(field))
            },
            None => Err(Fault::Mismatch(field)),
        },
    }
}

/// Reads a field that holds a sequence of doubles and gaps.
pub fn read_real_series(object: &Json, field: Field) -> (reading: Result<Vec<Option<Real>>, Fault>)
    ensures
        match real_series(object@, field) {
            Ok(s) => reading matches Ok(v) && v@ == s,
            Err(fault) => reading matches Err(f) && f == fault,
        },
{
    match find_field(object, field) {
        Err(fault) => Err(fault),
        Ok(None) => Ok(Vec::new()),
        Ok(Some(value)) => match read_real_array(value) {
            Some(v) => Ok(v),
            None => Err(Fault::Mismatch(field)),
        },
    }
}

/// Reads a field that holds a sequence of counts and gaps.
pub fn read_count_series(object: &Json, field: Field) -> (reading: Result<Vec<Option<u64>>, Fault>)
    ensures
        match count_series(object@, field) {
            Ok(s) => reading matches Ok(v) && v@ == s,
            Err(fault) => reading matches Err(f) && f == fault,
        },
{
    match find_field(object, field) {
        Err(fault) => Err(fault),
        Ok(None) => Ok(Vec::new()),
        Ok(Some(value)) => match read_count_array(value) {
            Some(v) => Ok(v),
            None => Err(Fault::Mismatch(field)),
        },
    }
}

/// Reads a field that holds a sequence of numbers of seconds.
pub fn read_seconds_series(object: &Json, field: Field) -> (reading: Result<Vec<i64>, Fault>)
    ensures
        match seconds_series(object@, field) {
            Ok(s) => reading matches Ok(v) && v@ == s,
            Err(fault) => reading matches Err(f) && f == fault,
        },
{
    match find_field(object, field) {
        Err(fault) => Err(fault),
        Ok(None) => Ok(Vec::new()),
        Ok(Some(value)) => match read_seconds_array(value) {
            Some(v) => Ok(v),
            None => Err(Fault::Mismatch(field)),
        },
    }
}

} // verus!
