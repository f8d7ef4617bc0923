//! What every record of the service offers: its kind, its name, the fields
//! to request for it, and a text rendering.
use vstd::prelude::*;
use crate::text::join_by;

verus! {

/// The text of each string slice, in order.
pub open spec fn str_views(v: Seq<&str>) -> Seq<Seq<char>> {
    v.map_values(|s: &str| s@)
}

pub trait TrelloObject: Sized {
    /// The kind of record, as the service names it.
    spec fn kind_name() -> Seq<char>;

    /// The record's display name.
    spec fn object_name(&self) -> Seq<char>;

    /// The fields requested from the service for this kind of record.
    spec fn field_names() -> Seq<Seq<char>>;

    /// Whether `out` is a rendering of this record.
    spec fn renders_as(&self, out: Seq<char>) -> bool;

    fn get_type() -> (r: String)
        ensures
            r@ == Self::kind_name(),
    ;

    fn get_name(&self) -> (r: &str)
        ensures
            r@ == self.object_name(),
    ;

    fn get_fields() -> (r: &'static [&'static str])
        ensures
            str_views(r@) == Self::field_names(),
    ;

    fn render(&self) -> (r: String)
        ensures
            self.renders_as(r@),
    ;
}

/// The fields requested for records of kind `T`, separated by commas, as the
/// service expects them in a query.
pub fn field_list<T: TrelloObject>() -> (r: String)
    ensures
        r@ == join_by(T::field_names(), seq![',']),
{
    let fields = T::get_fields();
    let ghost all = str_views(fields@);
    let mut r = String::new();
    let mut i: usize = 0;
    while i < fields.len()
        invariant
            i <= fields@.len(),
            all == str_views(fields@),
            r@ == join_by(all.take(i as int), seq![',']),
        decreases fields@.len() - i,
    {
        let ghost before = r@;
        proof {
            reveal_strlit(",");
            assert(","@ =~= seq![',']);
        }
        if i > 0 {
            r.append(",");
        }
        r.append(fields[i]);
        proof {
            assert(all[i as int] == fields@[i as int]@);
            assert(all.take(i + 1).last() == all[i as int]);
            assert(all.take(i + 1).drop_last() =~= all.take(i as int));
            if i == 0 {
                assert(all.take(1) =~= seq![fields@[0]@]);
            } else {
                assert(r@ =~= before + seq![','] + all[i as int]);
            }
        }
        i = i + 1;
    }
    proof {
        assert(all.take(i as int) =~= all);
    }
    r
}

} // verus!
