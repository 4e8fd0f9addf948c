//! Ordered parameter-list conversion.
//!
//! A statement's parameters arrive as an ordered sequence of dynamic values
//! and must become an ordered sequence of typed storage values.  Conversion
//! is fail-fast: entries convert in position order, the first failure is
//! returned and nothing after it is attempted.  On success the output has
//! the input's length and order.

use vstd::prelude::*;
use crate::error::ConversionError;
use crate::value::{to_typed, to_typed_view, DynamicValue, DynamicValueView, TypedValue,
    TypedValueView};

verus! {

/// The views of a sequence of dynamic values.
pub open spec fn dyn_views(s: Seq<DynamicValue>) -> Seq<DynamicValueView> {
    s.map_values(|v: DynamicValue| v@)
}

/// The views of a sequence of typed values.
pub open spec fn typed_views(s: Seq<TypedValue>) -> Seq<TypedValueView> {
    s.map_values(|t: TypedValue| t@)
}

/// Fail-fast, order-preserving conversion of a parameter sequence:
/// the result of converting each entry in position order, stopping at
/// the first entry with no typed counterpart.
pub open spec fn convert_params_view(s: Seq<DynamicValueView>) -> Result<
    Seq<TypedValueView>,
    ConversionError,
>
    decreases s.len(),
{
    if s.len() == 0 {
        Ok(Seq::empty())
    } else {
        match to_typed_view(s[0]) {
            Ok(t) => match convert_params_view(s.skip(1)) {
                Ok(rest) => Ok(seq![t] + rest),
                Err(e) => Err(e),
            },
            Err(e) => Err(e),
        }
    }
}

/// Conversion succeeds exactly when every entry converts, and then it is
/// the elementwise conversion: order and length are preserved.
pub proof fn lemma_convert_params_elementwise(s: Seq<DynamicValueView>)
    ensures
        (convert_params_view(s) is Ok) <==> (forall|j: int|
            0 <= j < s.len() ==> to_typed_view(#[trigger] s[j]) is Ok),
        convert_params_view(s) matches Ok(out) ==> out.len() == s.len() && (forall|j: int|
            0 <= j < s.len() ==> to_typed_view(#[trigger] s[j]) == Ok::<
                TypedValueView,
                ConversionError,
            >(out[j])),
    decreases s.len(),
{
    if s.len() > 0 {
        lemma_convert_params_elementwise(s.skip(1));
        assert(forall|j: int| 0 <= j < s.skip(1).len() ==> #[trigger] s.skip(1)[j] == s[j + 1]);
        if to_typed_view(s[0]) is Ok && convert_params_view(s.skip(1)) is Ok {
            let t = to_typed_view(s[0])->Ok_0;
            let rest = convert_params_view(s.skip(1))->Ok_0;
            assert(forall|j: int| 0 <= j < s.len() ==> to_typed_view(#[trigger] s[j]) is Ok) by {
                assert(forall|j: int| 1 <= j < s.len() ==> s[j] == s.skip(1)[j - 1]);
            }
            assert(forall|j: int| 0 <= j < s.len() ==> to_typed_view(#[trigger] s[j]) == Ok::<
                TypedValueView,
                ConversionError,
            >((seq![t] + rest)[j])) by {
                assert(forall|j: int| 1 <= j < s.len() ==> s[j] == s.skip(1)[j - 1]);
                assert(forall|j: int| 1 <= j < s.len() ==> (seq![t] + rest)[j] == rest[j - 1]);
            }
        }
    }
}

/// Conversion is fail-fast: if the entries before position `k` convert and
/// the entry at `k` does not, the result is exactly that entry's error.
pub proof fn lemma_convert_params_fail_fast(s: Seq<DynamicValueView>, k: int)
    requires
        0 <= k < s.len(),
        forall|j: int| 0 <= j < k ==> to_typed_view(#[trigger] s[j]) is Ok,
        to_typed_view(s[k]) is Err,
    ensures
        convert_params_view(s) == Err::<Seq<TypedValueView>, ConversionError>(
            to_typed_view(s[k])->Err_0,
        ),
    decreases k,
{
    if k == 0 {
    } else {
        assert(forall|j: int| 0 <= j < s.skip(1).len() ==> #[trigger] s.skip(1)[j] == s[j + 1]);
        lemma_convert_params_fail_fast(s.skip(1), k - 1);
    }
}

/// Convert an ordered parameter list, in order and fail-fast.
pub fn convert_params(params: Vec<DynamicValue>) -> (r: Result<Vec<TypedValue>, ConversionError>)
    ensures
        r matches Ok(out) ==> convert_params_view(dyn_views(params@)) == Ok::<
            Seq<TypedValueView>,
            ConversionError,
        >(typed_views(out@)),
        r matches Err(e) ==> convert_params_view(dyn_views(params@)) == Err::<
            Seq<TypedValueView>,
            ConversionError,
        >(e),
{
    let ghost pviews = dyn_views(params@);
    let n = params.len();
    let mut rest = params;
    let mut out: Vec<TypedValue> = Vec::new();
    let mut k: usize = 0;
    proof {
        assert(rest@ =~= params@.skip(0));
    }
    while rest.len() > 0
        invariant
            n == params@.len(),
            k + rest@.len() == n,
            rest@ == params@.skip(k as int),
            out@.len() == k,
            pviews == dyn_views(params@),
            forall|j: int|
                0 <= j < k ==> to_typed_view(#[trigger] pviews[j]) == Ok::<
                    TypedValueView,
                    ConversionError,
                >(out@[j]@),
        decreases rest@.len(),
    {
        let v = rest.remove(0);
        proof {
            assert(v == params@[k as int]);
            assert(v@ == pviews[k as int]);
        }
        match to_typed(v) {
            Ok(t) => {
                out.push(t);
                k = k + 1;
                proof {
                    assert(rest@ =~= params@.skip(k as int));
                }
            },
            Err(e) => {
                proof {
                    lemma_convert_params_fail_fast(pviews, k as int);
                }
                return Err(e);
            },
        }
    }
    proof {
        lemma_convert_params_elementwise(pviews);
        assert(convert_params_view(pviews) is Ok);
        let sout = convert_params_view(pviews)->Ok_0;
        assert forall|j: int| 0 <= j < n implies #[trigger] sout[j] == out@[j]@ by {
            assert(to_typed_view(pviews[j]) == Ok::<TypedValueView, ConversionError>(sout[j]));
            assert(to_typed_view(pviews[j]) == Ok::<TypedValueView, ConversionError>(out@[j]@));
        }
        assert(forall|j: int| 0 <= j < n ==> #[trigger] typed_views(out@)[j] == out@[j]@);
        assert(sout =~= typed_views(out@));
    }
    Ok(out)
}

/// Carries one dynamic value toward the storage layer.
pub struct LuaSerializer(DynamicValue);

impl View for LuaSerializer {
    type V = DynamicValueView;

    closed spec fn view(&self) -> DynamicValueView {
        self.0@
    }
}

impl LuaSerializer {
    /// Wrap one dynamic value for conversion.
    pub fn new(value: DynamicValue) -> (s: Self)
        ensures
            s@ == value@,
    {
        LuaSerializer(value)
    }

    /// Convert the wrapped value to its typed storage counterpart.
    pub fn into_sql(self) -> (r: Result<TypedValue, ConversionError>)
        ensures
            r matches Ok(t) ==> to_typed_view(self@) == Ok::<TypedValueView, ConversionError>(t@),
            r matches Err(e) ==> to_typed_view(self@) == Err::<TypedValueView, ConversionError>(e),
    {
        to_typed(self.0)
    }
}

} // verus!
