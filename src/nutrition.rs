use crate::lookup::{find_nutrient, find_serving, first_match, nutrient_has_id, serving_has_id};
use crate::models::{Nutrient, Serving, ServingNutrient};
use vstd::prelude::*;

verus! {

/// The reference data that serving resolution reads: nutrients, servings and
/// the nutrient rows of the servings.
#[derive(Clone, Debug)]
pub struct Catalog {
    pub nutrients: Vec<Nutrient>,
    pub servings: Vec<Serving>,
    pub serving_nutrients: Vec<ServingNutrient>,
}

/// One nutrient contributed by an amount of a serving.
#[derive(Clone, Debug)]
pub struct MealInfoNutrient {
    pub name: String,
    pub amount: u64,
    pub unit: String,
}

/// A nutrient line as a value: name, amount, unit.
pub type Line = (Seq<char>, int, Seq<char>);

impl View for MealInfoNutrient {
    type V = Line;

    open spec fn view(&self) -> Line {
        (self.name@, self.amount as int, self.unit@)
    }
}

pub open spec fn lines_of(v: Seq<MealInfoNutrient>) -> Seq<Line> {
    v.map_values(|m: MealInfoNutrient| m@)
}

/// Why a serving's nutrients could not be resolved.
#[derive(Clone, Copy, Debug, PartialEq, Eq, Structural)]
pub enum ResolveError {
    /// The serving, or the serving it is relative to, does not exist.
    ServingNotFound,
    /// The serving whose rows are scaled has a base amount of zero.
    ZeroBaseAmount,
    /// A scaled amount does not fit the amount type.
    AmountTooLarge,
}

/// `amount` scaled by `consumed / base`, rounded down. At the base amount
/// itself nothing is divided and the amount is kept as it is.
pub open spec fn scale(amount: int, consumed: int, base: int) -> int {
    if consumed == base {
        amount
    } else {
        amount * consumed / base
    }
}

/// The nutrient rows of serving `sid`, in table order, each joined with its
/// nutrient (rows whose nutrient is unknown are left out), with the amount
/// scaled by `consumed / base`.
pub open spec fn nutrient_lines(
    ns: Seq<Nutrient>,
    rows: Seq<ServingNutrient>,
    sid: i32,
    consumed: int,
    base: int,
) -> Seq<Line>
    decreases rows.len(),
{
    if rows.len() == 0 {
        Seq::empty()
    } else {
        let earlier = nutrient_lines(ns, rows.drop_last(), sid, consumed, base);
        let row = rows.last();
        if row.serving_id == sid {
            match first_match(ns, nutrient_has_id(row.nutrient_id)) {
                Some(n) => earlier.push((n.name@, scale(row.amount as int, consumed, base), n.unit@)),
                None => earlier,
            }
        } else {
            earlier
        }
    }
}

/// The nutrient rows of serving `sid` as they are stored, unscaled.
pub open spec fn own_lines(ns: Seq<Nutrient>, rows: Seq<ServingNutrient>, sid: i32) -> Seq<Line>
    decreases rows.len(),
{
    if rows.len() == 0 {
        Seq::empty()
    } else {
        let earlier = own_lines(ns, rows.drop_last(), sid);
        let row = rows.last();
        if row.serving_id == sid {
            match first_match(ns, nutrient_has_id(row.nutrient_id)) {
                Some(n) => earlier.push((n.name@, row.amount as int, n.unit@)),
                None => earlier,
            }
        } else {
            earlier
        }
    }
}

pub open spec fn fits_u64(lines: Seq<Line>) -> bool {
    forall|j: int| 0 <= j < lines.len() ==> #[trigger] lines[j].1 <= u64::MAX
}

/// The serving whose nutrient rows stand for `s`: `s` itself, or the
/// serving that `s` is relative to.
pub open spec fn base_serving(cat: Catalog, s: Serving) -> Option<Serving> {
    match s.relative {
        None => Some(s),
        Some(rid) => first_match(cat.servings@, serving_has_id(rid)),
    }
}

/// The nutrients contributed by `consumed` of serving `s`: each nutrient row
/// of its base serving `b`, scaled by `consumed / b.amount`. For a relative
/// serving this is the row scaled by `s.amount / b.amount` and then by
/// `consumed / s.amount`, with the rounding done once. A serving without
/// nutrient rows contributes nothing; a base amount of zero is an error only
/// where a row has to be divided by it.
pub open spec fn resolved(cat: Catalog, s: Serving, consumed: int) -> Result<Seq<Line>, ResolveError> {
    match base_serving(cat, s) {
        None => Err(ResolveError::ServingNotFound),
        Some(b) => {
            let lines = nutrient_lines(
                cat.nutrients@,
                cat.serving_nutrients@,
                b.id,
                consumed,
                b.amount as int,
            );
            if b.amount == 0 && consumed != 0 && lines.len() > 0 {
                Err(ResolveError::ZeroBaseAmount)
            } else if fits_u64(lines) {
                Ok(lines)
            } else {
                Err(ResolveError::AmountTooLarge)
            }
        },
    }
}

pub open spec fn resolved_view(r: Result<Vec<MealInfoNutrient>, ResolveError>) -> Result<
    Seq<Line>,
    ResolveError,
> {
    match r {
        Ok(v) => Ok(lines_of(v@)),
        Err(e) => Err(e),
    }
}

/// The lines computed from a prefix of the rows start the lines of all rows.
proof fn lemma_lines_prefix(
    ns: Seq<Nutrient>,
    rows: Seq<ServingNutrient>,
    sid: i32,
    consumed: int,
    base: int,
    k: int,
)
    requires
        0 <= k <= rows.len(),
    ensures
        nutrient_lines(ns, rows.subrange(0, k), sid, consumed, base).len() <= nutrient_lines(
            ns,
            rows,
            sid,
            consumed,
            base,
        ).len(),
        forall|j: int|
            0 <= j < nutrient_lines(ns, rows.subrange(0, k), sid, consumed, base).len() ==> (
            #[trigger] nutrient_lines(ns, rows.subrange(0, k), sid, consumed, base)[j])
                == nutrient_lines(ns, rows, sid, consumed, base)[j],
    decreases rows.len(),
{
    if k == rows.len() {
        assert(rows.subrange(0, k) =~= rows);
    } else {
        assert(rows.drop_last().subrange(0, k) =~= rows.subrange(0, k));
        lemma_lines_prefix(ns, rows.drop_last(), sid, consumed, base, k);
    }
}

/// Nutrients contributed by `consumed` of `serving`.
pub fn resolve_nutrients(cat: &Catalog, serving: &Serving, consumed: u64) -> (r: Result<
    Vec<MealInfoNutrient>,
    ResolveError,
>)
    ensures
        resolved_view(r) == resolved(*cat, *serving, consumed as int),
{
    let (base_id, base_amount) = match serving.relative {
        None => (serving.id, serving.amount),
        Some(rid) => match find_serving(&cat.servings, rid) {
            Some(k) => (cat.servings[k].id, cat.servings[k].amount),
            None => {
                return Err(ResolveError::ServingNotFound);
            },
        },
    };
    let ghost ns = cat.nutrients@;
    let ghost rows = cat.serving_nutrients@;
    let mut out: Vec<MealInfoNutrient> = Vec::new();
    let mut i: usize = 0;
    while i < cat.serving_nutrients.len()
        invariant
            i <= rows.len(),
            ns == cat.nutrients@,
            rows == cat.serving_nutrients@,
            base_serving(*cat, *serving) is Some,
            base_serving(*cat, *serving)->0.id == base_id,
            base_serving(*cat, *serving)->0.amount == base_amount,
            lines_of(out@) == nutrient_lines(
                ns,
                rows.subrange(0, i as int),
                base_id,
                consumed as int,
                base_amount as int,
            ),
            base_amount == 0 && consumed != 0 ==> out@.len() == 0,
            fits_u64(lines_of(out@)),
        decreases rows.len() - i,
    {
        let row = cat.serving_nutrients[i];
        assert(rows.subrange(0, i + 1).drop_last() =~= rows.subrange(0, i as int));
        assert(rows.subrange(0, i + 1).last() == row);
        if row.serving_id == base_id {
            match find_nutrient(&cat.nutrients, row.nutrient_id) {
                Some(k) => {
                    let ghost pl = nutrient_lines(
                        ns,
                        rows.subrange(0, i + 1),
                        base_id,
                        consumed as int,
                        base_amount as int,
                    );
                    let ghost full = nutrient_lines(
                        ns,
                        rows,
                        base_id,
                        consumed as int,
                        base_amount as int,
                    );
                    proof {
                        lemma_lines_prefix(
                            ns,
                            rows,
                            base_id,
                            consumed as int,
                            base_amount as int,
                            i + 1,
                        );
                        assert(pl.len() == lines_of(out@).len() + 1);
                    }
                    let amount: u64 = if consumed == base_amount {
                        row.amount
                    } else if base_amount == 0 {
                        return Err(ResolveError::ZeroBaseAmount);
                    } else {
                        proof {
                            assert((row.amount as int) * (consumed as int) <= (u64::MAX as int) * (
                            u64::MAX as int)) by (nonlinear_arith)
                                requires
                                    row.amount <= u64::MAX,
                                    consumed <= u64::MAX,
                            ;
                        }
                        let scaled: u128 = (row.amount as u128) * (consumed as u128) / (
                        base_amount as u128);
                        if scaled > u64::MAX as u128 {
                            proof {
                                assert(pl[pl.len() - 1].1 > u64::MAX);
                                assert(full[pl.len() - 1].1 > u64::MAX);
                                assert(!fits_u64(full));
                            }
                            return Err(ResolveError::AmountTooLarge);
                        }
                        scaled as u64
                    };
                    let line = MealInfoNutrient {
                        name: cat.nutrients[k].name.clone(),
                        amount,
                        unit: cat.nutrients[k].unit.clone(),
                    };
                    let ghost before = out@;
                    out.push(line);
                    proof {
                        assert(out@ =~= before.push(line));
                        assert(lines_of(out@) =~= lines_of(before).push(line@));
                    }
                },
                None => {},
            }
        }
        i = i + 1;
    }
    assert(rows.subrange(0, i as int) =~= rows);
    Ok(out)
}

/// Nutrients contributed by `consumed` of the first serving with id
/// `serving_id`.
pub fn resolve_serving_id(cat: &Catalog, serving_id: i32, consumed: u64) -> (r: Result<
    Vec<MealInfoNutrient>,
    ResolveError,
>)
    ensures
        match first_match(cat.servings@, serving_has_id(serving_id)) {
            None => r == Err::<Vec<MealInfoNutrient>, ResolveError>(ResolveError::ServingNotFound),
            Some(s) => resolved_view(r) == resolved(*cat, s, consumed as int),
        },
{
    match find_serving(&cat.servings, serving_id) {
        None => Err(ResolveError::ServingNotFound),
        Some(k) => resolve_nutrients(cat, &cat.servings[k], consumed),
    }
}

/// Every line of `l` with its amount scaled by `consumed / base` as `scale`
/// does it; an error where a line would be divided by a zero base, or a
/// scaled amount does not fit the amount type.
pub open spec fn rescaled(r: Result<Seq<Line>, ResolveError>, consumed: int, base: int) -> Result<
    Seq<Line>,
    ResolveError,
> {
    match r {
        Ok(l) => {
            let scaled = l.map_values(|x: Line| (x.0, scale(x.1, consumed, base), x.2));
            if base == 0 && consumed != 0 && l.len() > 0 {
                Err(ResolveError::ZeroBaseAmount)
            } else if fits_u64(scaled) {
                Ok(scaled)
            } else {
                Err(ResolveError::AmountTooLarge)
            }
        },
        Err(e) => Err(e),
    }
}

proof fn lemma_unscaled_lines(ns: Seq<Nutrient>, rows: Seq<ServingNutrient>, sid: i32, base: int)
    ensures
        nutrient_lines(ns, rows, sid, base, base) == own_lines(ns, rows, sid),
        fits_u64(own_lines(ns, rows, sid)),
    decreases rows.len(),
{
    if rows.len() > 0 {
        lemma_unscaled_lines(ns, rows.drop_last(), sid, base);
        let l = own_lines(ns, rows, sid);
        let e = own_lines(ns, rows.drop_last(), sid);
        assert forall|j: int| 0 <= j < l.len() implies #[trigger] l[j].1 <= u64::MAX by {
            if j < e.len() {
                assert(l[j] == e[j]);
            }
        }
    }
}

proof fn lemma_scale_own_lines(
    ns: Seq<Nutrient>,
    rows: Seq<ServingNutrient>,
    sid: i32,
    consumed: int,
    base: int,
)
    ensures
        own_lines(ns, rows, sid).map_values(|x: Line| (x.0, scale(x.1, consumed, base), x.2))
            == nutrient_lines(ns, rows, sid, consumed, base),
    decreases rows.len(),
{
    let f = |x: Line| (x.0, scale(x.1, consumed, base), x.2);
    if rows.len() == 0 {
        assert(own_lines(ns, rows, sid).map_values(f) =~= Seq::<Line>::empty());
    } else {
        lemma_scale_own_lines(ns, rows.drop_last(), sid, consumed, base);
        let e = own_lines(ns, rows.drop_last(), sid);
        let row = rows.last();
        if row.serving_id == sid {
            match first_match(ns, nutrient_has_id(row.nutrient_id)) {
                Some(n) => {
                    assert(e.push((n.name@, row.amount as int, n.unit@)).map_values(f) =~= e.map_values(
                        f,
                    ).push((n.name@, scale(row.amount as int, consumed, base), n.unit@)));
                },
                None => {},
            }
        }
    }
}

/// At its own base amount, a serving that is not relative contributes its
/// nutrient rows exactly as they are stored.
pub proof fn law_base_amount_is_unscaled(cat: Catalog, s: Serving)
    requires
        s.relative is None,
    ensures
        resolved(cat, s, s.amount as int) == Ok::<Seq<Line>, ResolveError>(
            own_lines(cat.nutrients@, cat.serving_nutrients@, s.id),
        ),
{
    lemma_unscaled_lines(cat.nutrients@, cat.serving_nutrients@, s.id, s.amount as int);
}

/// A serving relative to base serving `b` contributes, for any consumed
/// amount, what `b` contributes at its own base amount scaled by
/// `consumed / b.amount`.
pub proof fn law_relative_scales_base(cat: Catalog, r: Serving, b: Serving, consumed: u64)
    requires
        r.relative == Some(b.id),
        first_match(cat.servings@, serving_has_id(b.id)) == Some(b),
        b.relative is None,
    ensures
        resolved(cat, r, consumed as int) == rescaled(
            resolved(cat, b, b.amount as int),
            consumed as int,
            b.amount as int,
        ),
{
    law_base_amount_is_unscaled(cat, b);
    lemma_scale_own_lines(
        cat.nutrients@,
        cat.serving_nutrients@,
        b.id,
        consumed as int,
        b.amount as int,
    );
}

/// A serving whose base serving has no nutrient rows resolves, at any
/// consumed amount, to no nutrients at all: an empty list is no error.
pub proof fn law_no_rows_resolves_empty(cat: Catalog, s: Serving, consumed: u64)
    requires
        base_serving(cat, s) matches Some(b) && own_lines(
            cat.nutrients@,
            cat.serving_nutrients@,
            b.id,
        ).len() == 0,
    ensures
        resolved(cat, s, consumed as int) == Ok::<Seq<Line>, ResolveError>(Seq::empty()),
{
    let b = base_serving(cat, s)->0;
    lemma_scale_own_lines(
        cat.nutrients@,
        cat.serving_nutrients@,
        b.id,
        consumed as int,
        b.amount as int,
    );
    assert(nutrient_lines(
        cat.nutrients@,
        cat.serving_nutrients@,
        b.id,
        consumed as int,
        b.amount as int,
    ) =~= Seq::<Line>::empty());
}

} // verus!
