//! The application list.
//!
//! The device reports the application types it can launch; the bridge
//! maps each recognized type to its DAB application identifier, drops
//! unrecognized types, and keeps the device's reporting order.

use vstd::prelude::*;

use crate::text::str_eq;

verus! {

/// One entry of the DAB application list.
pub struct Application {
    pub app_id: String,
}

impl View for Application {
    type V = Seq<char>;

    open spec fn view(&self) -> Seq<char> {
        self.app_id@
    }
}

impl DeepView for Application {
    type V = Seq<char>;

    open spec fn deep_view(&self) -> Seq<char> {
        self.app_id@
    }
}

/// The DAB application identifier of one reported type, if the type
/// is recognized.
pub open spec fn spec_app_id(t: Seq<char>) -> Option<Seq<char>> {
    if t == "YouTube"@ {
        Some("YouTube"@)
    } else if t == "Amazon"@ {
        Some("PrimeVideo"@)
    } else if t == "Netflix"@ {
        Some("Netflix"@)
    } else {
        None
    }
}

/// The application identifiers of a reported type list: recognized
/// types mapped in order, unrecognized types dropped.
pub open spec fn spec_app_ids(ts: Seq<Seq<char>>) -> Seq<Seq<char>>
    decreases ts.len(),
{
    if ts.len() == 0 {
        Seq::empty()
    } else {
        let rest = spec_app_ids(ts.drop_last());
        match spec_app_id(ts.last()) {
            Some(a) => rest.push(a),
            None => rest,
        }
    }
}

/// Maps one reported application type to its DAB application
/// identifier; an unrecognized type maps to nothing.
pub fn map_app_type(t: &str) -> (r: Option<String>)
    ensures
        match r {
            Some(s) => spec_app_id(t@) == Some(s@),
            None => spec_app_id(t@) is None,
        },
{
    if str_eq(t, "YouTube") {
        Some("YouTube".to_owned())
    } else if str_eq(t, "Amazon") {
        Some("PrimeVideo".to_owned())
    } else if str_eq(t, "Netflix") {
        Some("Netflix".to_owned())
    } else {
        None
    }
}

/// Builds the DAB application list from the reported type list:
/// recognized types become applications in the order reported,
/// unrecognized types are dropped.
pub fn list_applications(types: &Vec<String>) -> (r: Vec<Application>)
    ensures
        r.deep_view() == spec_app_ids(types.deep_view()),
{
    let ghost full = types.deep_view();
    let mut out: Vec<Application> = Vec::new();
    proof {
        assert(full.take(0) =~= Seq::<Seq<char>>::empty());
        assert(out.deep_view() =~= spec_app_ids(full.take(0)));
    }
    let mut i: usize = 0;
    while i < types.len()
        invariant
            full == types.deep_view(),
            full.len() == types.len(),
            i <= types.len(),
            out.deep_view() == spec_app_ids(full.take(i as int)),
        decreases types.len() - i,
    {
        let t = &types[i];
        proof {
            assert(full[i as int] == t@);
            assert(full.take(i as int + 1).drop_last() =~= full.take(i as int));
            assert(full.take(i as int + 1).last() == full[i as int]);
        }
        let ghost prev = out.deep_view();
        match map_app_type(t.as_str()) {
            Some(id) => {
                out.push(Application { app_id: id });
                proof {
                    assert(out.deep_view() =~= prev.push(out@[out@.len() - 1].deep_view()));
                    assert(out.deep_view() == spec_app_ids(full.take(i as int + 1)));
                }
            },
            None => {
                proof {
                    assert(out.deep_view() == spec_app_ids(full.take(i as int + 1)));
                }
            },
        }
        i += 1;
    }
    proof {
        assert(full.take(i as int) =~= full);
    }
    out
}

} // verus!
