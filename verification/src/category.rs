//! Categories: reading them from a `GetCategories` response, and resolving
//! the one category that an update names.
use vstd::prelude::*;
use crate::json::{JsonValue, field, slot, record_shape, record_slot, has_record_shape};
use crate::text::{trim, is_blank, lowercase, chars_of, trim_chars, string_of, lowercase_str, is_blank_str, str_eq, lemma_blank_iff_all_space};
use crate::update_error::{UpdateError, CategoryField};
use crate::read_problem::{ListOf, ListProblem, list_problem, item_problem_of, lemma_first_failing};

verus! {

#[derive(Debug)]
pub struct CategoryGroup {
    pub id: String,
    pub name: String,
    /// The group's `type`.
    pub kind: String,
}

#[derive(Debug)]
pub struct Category {
    pub id: String,
    pub name: String,
    pub is_disabled: bool,
    pub group: CategoryGroup,
}

/// The id and name of a category, as a transaction carries them.
#[derive(Debug)]
pub struct CategoryRef {
    pub id: String,
    pub name: String,
}

/// How an update names its target category.
#[derive(Debug)]
pub enum CategorySelector {
    /// By name: trimmed and compared case-insensitively.
    Name(String),
    /// By id: trimmed and compared exactly.
    Id(String),
}

impl Clone for CategoryGroup {
    fn clone(&self) -> (r: Self)
        ensures
            r == *self,
    {
        CategoryGroup { id: self.id.clone(), name: self.name.clone(), kind: self.kind.clone() }
    }
}

impl Clone for Category {
    fn clone(&self) -> (r: Self)
        ensures
            r == *self,
    {
        Category {
            id: self.id.clone(),
            name: self.name.clone(),
            is_disabled: self.is_disabled,
            group: self.group.clone(),
        }
    }
}

impl Clone for CategoryRef {
    fn clone(&self) -> (r: Self)
        ensures
            r == *self,
    {
        CategoryRef { id: self.id.clone(), name: self.name.clone() }
    }
}

/// The reference form of a category (`CategoryRef::from(&category)`).
pub open spec fn spec_ref_of(c: Category) -> CategoryRef {
    CategoryRef { id: c.id, name: c.name }
}

impl CategoryRef {
    pub fn from_category(category: &Category) -> (r: CategoryRef)
        ensures
            r == spec_ref_of(*category),
    {
        CategoryRef { id: category.id.clone(), name: category.name.clone() }
    }
}

/// How serde reads `CategoryGroup { id, name, type }`, all strings.
pub open spec fn spec_group(x: JsonValue) -> Option<CategoryGroup> {
    if !record_shape(x, 3) {
        None
    } else {
        match (slot(x, "id"@, 0), slot(x, "name"@, 1), slot(x, "type"@, 2)) {
            (Some(JsonValue::Str(i)), Some(JsonValue::Str(n)), Some(JsonValue::Str(k))) => Some(
                CategoryGroup { id: i, name: n, kind: k },
            ),
            _ => None,
        }
    }
}

/// How serde reads `Category { id, name, isDisabled, group }`.
pub open spec fn spec_category(x: JsonValue) -> Option<Category> {
    if !record_shape(x, 4) {
        None
    } else {
        match (
            slot(x, "id"@, 0),
            slot(x, "name"@, 1),
            slot(x, "isDisabled"@, 2),
            slot(x, "group"@, 3),
        ) {
            (
                Some(JsonValue::Str(i)),
                Some(JsonValue::Str(n)),
                Some(JsonValue::Bool(d)),
                Some(g),
            ) => match spec_group(g) {
                Some(group) => Some(Category { id: i, name: n, is_disabled: d, group }),
                None => None,
            },
            _ => None,
        }
    }
}

/// How serde reads `CategoryRef { id, name }`.
pub open spec fn spec_category_ref(x: JsonValue) -> Option<CategoryRef> {
    if !record_shape(x, 2) {
        None
    } else {
        match (slot(x, "id"@, 0), slot(x, "name"@, 1)) {
            (Some(JsonValue::Str(i)), Some(JsonValue::Str(n))) => Some(CategoryRef { id: i, name: n }),
            _ => None,
        }
    }
}

/// How serde reads `Vec<Category>`.
pub open spec fn spec_category_list(x: JsonValue) -> Option<Seq<Category>> {
    match x {
        JsonValue::Array(xs) => if forall|i: int|
            0 <= i < xs@.len() ==> (#[trigger] spec_category(xs@[i])) is Some {
            Some(Seq::new(xs@.len(), |i: int| spec_category(xs@[i])->0))
        } else {
            None
        },
        _ => None,
    }
}

/// The first field of `c`, in the order id, name, group id, group name, group
/// type, that is blank.
pub open spec fn blank_field(c: Category) -> Option<CategoryField> {
    if is_blank(c.id@) {
        Some(CategoryField::Id)
    } else if is_blank(c.name@) {
        Some(CategoryField::Name)
    } else if is_blank(c.group.id@) {
        Some(CategoryField::GroupId)
    } else if is_blank(c.group.name@) {
        Some(CategoryField::GroupName)
    } else if is_blank(c.group.kind@) {
        Some(CategoryField::GroupType)
    } else {
        None
    }
}

/// The result of `parse_categories` on a `GetCategories` data object: the
/// categories when they are readable and none has a blank field; otherwise
/// the error for the first blank field of the first such category.
pub open spec fn parse_categories_agrees(data: JsonValue, r: Result<Vec<Category>, UpdateError>) -> bool {
    match field(data, "categories"@) {
        None => r matches Err(UpdateError::MissingCategories),
        Some(raw) => match spec_category_list(raw) {
            None => r == Err::<Vec<Category>, UpdateError>(
                UpdateError::UnreadableCategories { problem: list_problem(ListOf::Categories, raw) },
            ),
            Some(cats) => if forall|i: int| 0 <= i < cats.len() ==> (#[trigger] blank_field(cats[i])) is None {
                r matches Ok(v) && v@ == cats
            } else {
                r matches Err(UpdateError::BlankCategoryField { index, field }) && index < cats.len()
                    && blank_field(cats[index as int]) == Some(field) && forall|j: int|
                    0 <= j < index ==> (#[trigger] blank_field(cats[j])) is None
            },
        },
    }
}

fn parse_group(x: &JsonValue) -> (r: Option<CategoryGroup>)
    ensures
        r == spec_group(*x),
{
    if !has_record_shape(x, 3) {
        return None;
    }
    match (record_slot(x, "id", 0), record_slot(x, "name", 1), record_slot(x, "type", 2)) {
        (Some(JsonValue::Str(i)), Some(JsonValue::Str(n)), Some(JsonValue::Str(k))) => Some(
            CategoryGroup { id: i.clone(), name: n.clone(), kind: k.clone() },
        ),
        _ => None,
    }
}

fn parse_category(x: &JsonValue) -> (r: Option<Category>)
    ensures
        r == spec_category(*x),
{
    if !has_record_shape(x, 4) {
        return None;
    }
    match (
        record_slot(x, "id", 0),
        record_slot(x, "name", 1),
        record_slot(x, "isDisabled", 2),
        record_slot(x, "group", 3),
    ) {
        (Some(JsonValue::Str(i)), Some(JsonValue::Str(n)), Some(JsonValue::Bool(d)), Some(g)) => {
            match parse_group(g) {
                Some(group) => Some(
                    Category { id: i.clone(), name: n.clone(), is_disabled: *d, group },
                ),
                None => None,
            }
        },
        _ => None,
    }
}

/// Reads a `CategoryRef` the way serde does.
pub fn parse_category_ref(x: &JsonValue) -> (r: Option<CategoryRef>)
    ensures
        r == spec_category_ref(*x),
{
    if !has_record_shape(x, 2) {
        return None;
    }
    match (record_slot(x, "id", 0), record_slot(x, "name", 1)) {
        (Some(JsonValue::Str(i)), Some(JsonValue::Str(n))) => Some(
            CategoryRef { id: i.clone(), name: n.clone() },
        ),
        _ => None,
    }
}

fn parse_category_list(x: &JsonValue) -> (r: Result<Vec<Category>, ListProblem>)
    ensures
        match r {
            Ok(v) => spec_category_list(*x) == Some(v@),
            Err(p) => spec_category_list(*x) is None && p == list_problem(ListOf::Categories, *x),
        },
{
    match x {
        JsonValue::Array(xs) => {
            let mut items: Vec<Category> = Vec::new();
            let mut i: usize = 0;
            while i < xs.len()
                invariant
                    *x == JsonValue::Array(*xs),
                    i <= xs@.len(),
                    forall|j: int| 0 <= j < i ==> (#[trigger] spec_category(xs@[j])) is Some,
                    items@ =~= Seq::new(i as nat, |j: int| spec_category(xs@[j])->0),
                decreases xs@.len() - i,
            {
                match parse_category(&xs[i]) {
                    Some(item) => {
                        items.push(item);
                    },
                    None => {
                        assert(spec_category(xs@[i as int]) is None);
                        proof {
                            lemma_first_failing(ListOf::Categories, xs@, i as int);
                        }
                        let problem = item_problem_of(ListOf::Categories, &xs[i]);
                        return Err(ListProblem::Item { index: i, problem });
                    },
                }
                i = i + 1;
            }
            Ok(items)
        },
        _ => Err(ListProblem::NotList),
    }
}

fn category_blank_field(c: &Category) -> (r: Option<CategoryField>)
    ensures
        r == blank_field(*c),
{
    if is_blank_str(c.id.as_str()) {
        Some(CategoryField::Id)
    } else if is_blank_str(c.name.as_str()) {
        Some(CategoryField::Name)
    } else if is_blank_str(c.group.id.as_str()) {
        Some(CategoryField::GroupId)
    } else if is_blank_str(c.group.name.as_str()) {
        Some(CategoryField::GroupName)
    } else if is_blank_str(c.group.kind.as_str()) {
        Some(CategoryField::GroupType)
    } else {
        None
    }
}

/// The categories of a `GetCategories` data object. Each must have every
/// field of `Category` and non-blank ids, names and group type.
pub fn parse_categories(data: &JsonValue) -> (r: Result<Vec<Category>, UpdateError>)
    ensures
        parse_categories_agrees(*data, r),
{
    let raw = match data.get("categories") {
        Some(raw) => raw,
        None => return Err(UpdateError::MissingCategories),
    };
    let categories = match parse_category_list(raw) {
        Ok(c) => c,
        Err(problem) => return Err(UpdateError::UnreadableCategories { problem }),
    };
    let mut i: usize = 0;
    while i < categories.len()
        invariant
            i <= categories@.len(),
            field(*data, "categories"@) == Some(*raw),
            spec_category_list(*raw) == Some(categories@),
            forall|j: int| 0 <= j < i ==> (#[trigger] blank_field(categories@[j])) is None,
        decreases categories@.len() - i,
    {
        match category_blank_field(&categories[i]) {
            Some(f) => {
                assert(blank_field(categories@[i as int]) is Some);
                return Err(UpdateError::BlankCategoryField { index: i, field: f });
            },
            None => {},
        }
        i = i + 1;
    }
    Ok(categories)
}

/// The text of an optional string.
pub open spec fn opt_view(o: Option<&str>) -> Option<Seq<char>> {
    match o {
        Some(s) => Some(s@),
        None => None,
    }
}

/// The selector that `--category` and `--category-id` (given as `name` and
/// `id`) give.
pub open spec fn selector_agrees(
    name: Option<Seq<char>>,
    id: Option<Seq<char>>,
    r: Result<CategorySelector, UpdateError>,
) -> bool {
    match (name, id) {
        (Some(n), None) => if !is_blank(n) {
            r matches Ok(CategorySelector::Name(s)) && s@ == n
        } else {
            r matches Err(UpdateError::EmptyCategoryName)
        },
        (None, Some(i)) => if !is_blank(i) {
            r matches Ok(CategorySelector::Id(s)) && s@ == i
        } else {
            r matches Err(UpdateError::EmptyCategoryId)
        },
        (None, None) => r matches Err(UpdateError::MissingSelector),
        (Some(_), Some(_)) => r matches Err(UpdateError::ConflictingSelectors),
    }
}

/// Exactly one of a name and an id, not blank, selects the target.
pub fn category_selector(name: Option<&str>, id: Option<&str>) -> (r: Result<
    CategorySelector,
    UpdateError,
>)
    ensures
        selector_agrees(opt_view(name), opt_view(id), r),
{
    match (name, id) {
        (Some(n), None) => if !is_blank_str(n) {
            Ok(CategorySelector::Name(n.to_owned()))
        } else {
            Err(UpdateError::EmptyCategoryName)
        },
        (None, Some(i)) => if !is_blank_str(i) {
            Ok(CategorySelector::Id(i.to_owned()))
        } else {
            Err(UpdateError::EmptyCategoryId)
        },
        (None, None) => Err(UpdateError::MissingSelector),
        (Some(_), Some(_)) => Err(UpdateError::ConflictingSelectors),
    }
}

/// A category matches a name when their trimmed, lower-cased names are equal.
pub open spec fn name_matches(c: Category, wanted: Seq<char>) -> bool {
    lowercase(trim(c.name@)) == lowercase(wanted)
}

/// Whether category `c` matches the selector text `raw` (a name when
/// `by_name`, else an id): names are compared trimmed and lower-cased, an id
/// exactly against the trimmed text.
pub open spec fn selects(c: Category, by_name: bool, raw: Seq<char>) -> bool {
    if by_name {
        name_matches(c, trim(raw))
    } else {
        c.id@ == trim(raw)
    }
}

/// The categories that a selector matches, in order.
pub open spec fn matching(cats: Seq<Category>, by_name: bool, raw: Seq<char>) -> Seq<Category> {
    cats.filter(|c: Category| selects(c, by_name, raw))
}

/// Whether a selector is by name, and its text.
pub open spec fn selector_parts(sel: CategorySelector) -> (bool, Seq<char>) {
    match sel {
        CategorySelector::Name(n) => (true, n@),
        CategorySelector::Id(i) => (false, i@),
    }
}

/// Name lookup ignores surrounding white space and letter case: two names
/// that agree once trimmed and lower-cased select the same categories.
pub proof fn lemma_name_lookup_normalizes(cats: Seq<Category>, a: Seq<char>, b: Seq<char>)
    requires
        lowercase(trim(a)) == lowercase(trim(b)),
    ensures
        matching(cats, true, a) == matching(cats, true, b),
{
    let pa = |c: Category| selects(c, true, a);
    let pb = |c: Category| selects(c, true, b);
    assert(pa =~= pb);
}

/// What resolving a selector (by name when `by_name`, with text `raw`)
/// against `cats` gives: the single matching category when it is enabled;
/// otherwise the error for no match, several matches, or a disabled match.
pub open spec fn resolve_agrees(
    cats: Seq<Category>,
    by_name: bool,
    raw: Seq<char>,
    r: Result<Category, UpdateError>,
) -> bool {
    let ms = matching(cats, by_name, raw);
    if ms.len() == 0 {
        if by_name {
            r matches Err(UpdateError::NoCategoryNamed { wanted }) && wanted@ == trim(raw)
        } else {
            r matches Err(UpdateError::NoCategoryWithId { wanted }) && wanted@ == trim(raw)
        }
    } else if ms.len() > 1 {
        if by_name {
            r matches Err(UpdateError::AmbiguousCategoryName { wanted, count }) && wanted@ == trim(
                raw,
            ) && count == ms.len()
        } else {
            r matches Err(UpdateError::DuplicateCategoryId { wanted }) && wanted@ == trim(raw)
        }
    } else if ms[0].is_disabled {
        r matches Err(UpdateError::DisabledCategory { name, id }) && name == ms[0].name && id
            == ms[0].id
    } else {
        r == Ok::<Category, UpdateError>(ms[0])
    }
}

/// The categories read from a `GetCategories` answer are its entries, one
/// for one and in order: each has the entry's `id`, `name` and `isDisabled`,
/// and a non-blank id and name.
pub proof fn lemma_categories_read_in_order(data: JsonValue, r: Result<Vec<Category>, UpdateError>)
    requires
        parse_categories_agrees(data, r),
    ensures
        r matches Ok(v) ==> field(data, "categories"@) matches Some(JsonValue::Array(xs)) && v@.len()
            == xs@.len() && forall|i: int|
            0 <= i < v@.len() ==> slot(#[trigger] xs@[i], "id"@, 0) == Some(JsonValue::Str(v@[i].id))
                && slot(xs@[i], "name"@, 1) == Some(JsonValue::Str(v@[i].name)) && slot(
                xs@[i],
                "isDisabled"@,
                2,
            ) == Some(JsonValue::Bool(v@[i].is_disabled)) && !is_blank(v@[i].id@) && !is_blank(
                v@[i].name@,
            ),
{
    if let Ok(v) = r {
        let raw = field(data, "categories"@)->0;
        let xs = raw->Array_0;
        assert forall|i: int| 0 <= i < v@.len() implies slot(#[trigger] xs@[i], "id"@, 0) == Some(
            JsonValue::Str(v@[i].id),
        ) && slot(xs@[i], "name"@, 1) == Some(JsonValue::Str(v@[i].name)) && slot(
            xs@[i],
            "isDisabled"@,
            2,
        ) == Some(JsonValue::Bool(v@[i].is_disabled)) && !is_blank(v@[i].id@) && !is_blank(
            v@[i].name@,
        ) by {
            assert(spec_category(xs@[i]) is Some);
            assert(blank_field(v@[i]) is None);
        }
    }
}

/// Two elements of `s` at different places satisfy `p` when at least two
/// elements are kept by filtering with `p`.
proof fn lemma_filter_two<A>(s: Seq<A>, p: spec_fn(A) -> bool)
    requires
        s.filter(p).len() >= 2,
    ensures
        exists|i: int, j: int| 0 <= i < j < s.len() && p(#[trigger] s[i]) && p(#[trigger] s[j]),
    decreases s.len(),
{
    reveal(Seq::filter);
    let rest = s.drop_last();
    let sub = rest.filter(p);
    if p(s.last()) {
        assert(s.filter(p) == sub.push(s.last()));
        assert(sub.len() >= 1);
        rest.lemma_filter_pred(p, 0);
        assert(sub.contains(sub[0]));
        rest.lemma_filter_contains_rev(p, sub[0]);
        let k = choose|k: int| 0 <= k < rest.len() && rest[k] == sub[0];
        assert(s[k] == rest[k]);
        assert(p(s[k]) && p(s[s.len() - 1]));
    } else {
        assert(s.filter(p) == sub);
        lemma_filter_two(rest, p);
        let (i, j) = choose|i: int, j: int|
            0 <= i < j < rest.len() && p(#[trigger] rest[i]) && p(#[trigger] rest[j]);
        assert(s[i] == rest[i] && s[j] == rest[j]);
    }
}

/// Resolving a selector answers exactly: a name selects the categories whose
/// trimmed, lower-cased name equals the trimmed, lower-cased text, and an id
/// those whose id equals the trimmed text. A category found is one of them,
/// enabled; "no category" means none of them has that name or id; an
/// ambiguity means at least two different entries have it, and the count
/// is at least two; a disabled match is one of them, disabled.
pub proof fn lemma_resolve_exact(cats: Seq<Category>, by_name: bool, raw: Seq<char>, r: Result<Category, UpdateError>)
    requires
        resolve_agrees(cats, by_name, raw, r),
    ensures
        r matches Ok(c) ==> cats.contains(c) && !c.is_disabled && if by_name {
            lowercase(trim(c.name@)) == lowercase(trim(raw))
        } else {
            c.id@ == trim(raw)
        },
        (r matches Err(UpdateError::NoCategoryNamed { .. })) || (r matches Err(
            UpdateError::NoCategoryWithId { .. },
        )) ==> forall|i: int|
            0 <= i < cats.len() ==> !(if by_name {
                lowercase(trim((#[trigger] cats[i]).name@)) == lowercase(trim(raw))
            } else {
                cats[i].id@ == trim(raw)
            }),
        (r matches Err(UpdateError::AmbiguousCategoryName { count, .. }) ==> count >= 2),
        (r matches Err(UpdateError::AmbiguousCategoryName { .. })) || (r matches Err(
            UpdateError::DuplicateCategoryId { .. },
        )) ==> exists|i: int, j: int|
            #![trigger cats[i], cats[j]]
            0 <= i < j < cats.len() && (if by_name {
                lowercase(trim(cats[i].name@)) == lowercase(trim(raw))
                    && lowercase(trim(cats[j].name@)) == lowercase(trim(raw))
            } else {
                cats[i].id@ == trim(raw) && cats[j].id@ == trim(raw)
            }),
        r matches Err(UpdateError::DisabledCategory { name, id }) ==> exists|i: int|
            0 <= i < cats.len() && (#[trigger] cats[i]).is_disabled && cats[i].name == name
                && cats[i].id == id && if by_name {
                lowercase(trim(cats[i].name@)) == lowercase(trim(raw))
            } else {
                cats[i].id@ == trim(raw)
            },
{
    let pred = |c: Category| selects(c, by_name, raw);
    let ms = matching(cats, by_name, raw);
    assert(ms == cats.filter(pred));
    if ms.len() == 0 {
        assert forall|i: int| 0 <= i < cats.len() implies !pred(#[trigger] cats[i]) by {
            if pred(cats[i]) {
                cats.lemma_filter_contains(pred, i);
            }
        }
    } else if ms.len() > 1 {
        lemma_filter_two(cats, pred);
        let (i, j) = choose|i: int, j: int|
            0 <= i < j < cats.len() && pred(#[trigger] cats[i]) && pred(#[trigger] cats[j]);
        assert(pred(cats[i]) && pred(cats[j]));
        assert(0 <= i < j < cats.len() && (if by_name {
            lowercase(trim(cats[i].name@)) == lowercase(trim(raw)) && lowercase(trim(cats[j].name@))
                == lowercase(trim(raw))
        } else {
            cats[i].id@ == trim(raw) && cats[j].id@ == trim(raw)
        }));
    } else {
        cats.lemma_filter_pred(pred, 0);
        assert(ms.contains(ms[0]));
        cats.lemma_filter_contains_rev(pred, ms[0]);
        if ms[0].is_disabled {
            let k = choose|k: int| 0 <= k < cats.len() && cats[k] == ms[0];
            assert(cats[k].is_disabled);
        }
    }
}

/// The one enabled category that `selector` names.
pub fn resolve_selector(categories: &Vec<Category>, selector: &CategorySelector) -> (r: Result<
    Category,
    UpdateError,
>)
    ensures
        resolve_agrees(categories@, selector_parts(*selector).0, selector_parts(*selector).1, r),
{
    let (wanted, by_name) = match selector {
        CategorySelector::Name(n) => (n, true),
        CategorySelector::Id(i) => (i, false),
    };
    let wanted_chars = chars_of(wanted.as_str());
    let trimmed_chars = trim_chars(&wanted_chars);
    let trimmed = string_of(&trimmed_chars);
    let folded = lowercase_str(trimmed.as_str());
    let ghost raw = wanted@;
    let ghost pred = |c: Category| selects(c, by_name, raw);
    let mut matches: Vec<Category> = Vec::new();
    let mut i: usize = 0;
    proof {
        assert(categories@.take(0) =~= Seq::<Category>::empty());
        reveal(Seq::filter);
    }
    while i < categories.len()
        invariant
            i <= categories@.len(),
            matches@ == categories@.take(i as int).filter(pred),
            trimmed@ == trim(raw),
            folded@ == lowercase(trimmed@),
            pred == |c: Category| selects(c, by_name, raw),
        decreases categories@.len() - i,
    {
        let c = &categories[i];
        let hit = if by_name {
            let name_chars = chars_of(c.name.as_str());
            let t = trim_chars(&name_chars);
            let ts = string_of(&t);
            let l = lowercase_str(ts.as_str());
            str_eq(l.as_str(), folded.as_str())
        } else {
            str_eq(c.id.as_str(), trimmed.as_str())
        };
        assert(hit == pred(*c));
        proof {
            assert(categories@.take(i + 1) =~= categories@.take(i as int).push(*c));
            categories@.take(i as int).lemma_filter_push(*c, pred);
        }
        if hit {
            matches.push(c.clone());
        }
        i = i + 1;
    }
    assert(categories@.take(categories@.len() as int) =~= categories@);
    assert(matches@ == matching(categories@, by_name, raw));
    if matches.len() == 0 {
        if by_name {
            return Err(UpdateError::NoCategoryNamed { wanted: trimmed });
        } else {
            return Err(UpdateError::NoCategoryWithId { wanted: trimmed });
        }
    }
    if matches.len() > 1 {
        if by_name {
            return Err(UpdateError::AmbiguousCategoryName { wanted: trimmed, count: matches.len() });
        } else {
            return Err(UpdateError::DuplicateCategoryId { wanted: trimmed });
        }
    }
    let category = &matches[0];
    if category.is_disabled {
        return Err(
            UpdateError::DisabledCategory { name: category.name.clone(), id: category.id.clone() },
        );
    }
    Ok(category.clone())
}

/// Resolves the category that `--category` or `--category-id` names.
pub fn resolve_category(
    categories: &Vec<Category>,
    category_name: Option<&str>,
    category_id: Option<&str>,
) -> (r: Result<Category, UpdateError>)
    ensures
        match (category_name, category_id) {
            (Some(n), None) => if is_blank(n@) {
                r matches Err(UpdateError::EmptyCategoryName)
            } else {
                resolve_agrees(categories@, true, n@, r)
            },
            (None, Some(i)) => if is_blank(i@) {
                r matches Err(UpdateError::EmptyCategoryId)
            } else {
                resolve_agrees(categories@, false, i@, r)
            },
            (None, None) => r matches Err(UpdateError::MissingSelector),
            (Some(_), Some(_)) => r matches Err(UpdateError::ConflictingSelectors),
        },
{
    let selector = match category_selector(category_name, category_id) {
        Ok(s) => s,
        Err(e) => return Err(e),
    };
    resolve_selector(categories, &selector)
}

} // verus!
