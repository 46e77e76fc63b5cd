//! What the product service decides: whether a variant may be written with
//! the vendor code and the attribute values that are asked for, and how the
//! values of a variant are answered.
use crate::models::attributes::attribute::AttrValue;
use crate::models::attributes::attribute::Attribute;
use crate::models::attributes::attribute::AttributeValue;
use crate::models::product_attr::AttributeId;
use crate::models::product_attr::AttributeValueId;
use crate::models::product_attr::BaseProductId;
use crate::models::product_attr::NewProdAttr;
use crate::models::product_attr::ProdAttr;
use crate::models::product_attr::ProductId;
use crate::models::product_attr::StoreId;
use crate::services::error::service_outcome;
use crate::services::error::validation_failure;
use crate::services::error::ServiceError;
use crate::services::error::ServiceErrorView;
use vstd::prelude::*;

verus! {

/// Field of the failure that reports a vendor code that is taken.
pub const VENDOR_CODE_FIELD: &'static str = "vendor_code";

/// Text of the failure that reports a vendor code that is taken.
pub const VENDOR_CODE_TAKEN: &'static str = "Vendor code already exists.";

/// Field of the failure that reports attribute values that are taken.
pub const ATTRIBUTES_FIELD: &'static str = "attributes";

/// Text of the failure that reports attribute values that are taken.
pub const ATTRIBUTES_TAKEN: &'static str = "Product with this attributes already exists";

/// Which base products a lookup sees.
#[derive(Debug, Clone, Copy, PartialEq, Eq, Structural)]
pub enum Visibility {
    /// All that are active.
    Active,
    /// Only those that are published.
    Published,
}

/// The visibility that a lookup runs with: the one asked for, and
/// `Published` where none is.
pub fn effective_visibility(visibility: Option<Visibility>) -> (v: Visibility)
    ensures
        v == match visibility {
            Some(asked) => asked,
            None => Visibility::Published,
        },
{
    match visibility {
        Some(asked) => asked,
        None => Visibility::Published,
    }
}

/// Whether a vendor code may be used in a store, from what the lookup of the
/// code in the store came back with: no store is "not found", a code that the
/// store has already is a validation failure, and a code that it has not is
/// fine.
pub fn check_vendor_code(vendor_code_exists: Option<bool>) -> (r: Result<(), ServiceError>)
    ensures
        service_outcome(r) == match vendor_code_exists {
            None => Err::<(), ServiceErrorView>(ServiceErrorView::NotFound),
            Some(true) => Err::<(), ServiceErrorView>(
                validation_failure(VENDOR_CODE_FIELD@, VENDOR_CODE_TAKEN@),
            ),
            Some(false) => Ok::<(), ServiceErrorView>(()),
        },
{
    match vendor_code_exists {
        None => Err(ServiceError::NotFound),
        Some(true) => Err(ServiceError::invalid(VENDOR_CODE_FIELD, VENDOR_CODE_TAKEN)),
        Some(false) => Ok(()),
    }
}

/// The value that the stored rows give the attribute `attr_id` on the
/// variant `prod_id`: that of the last such row, if there is one.
pub open spec fn stored_value(rows: Seq<ProdAttr>, prod_id: ProductId, attr_id: AttributeId)
    -> Option<Seq<char>>
    decreases rows.len(),
{
    if rows.len() == 0 {
        None
    } else if rows.last().prod_id == prod_id && rows.last().attr_id == attr_id {
        Some(rows.last().value@)
    } else {
        stored_value(rows.drop_last(), prod_id, attr_id)
    }
}

/// The value of an attribute on a variant: the stored one, or the empty
/// value for an attribute that the base product offers and the variant has
/// no row for, or none for any other attribute.
pub open spec fn value_on_variant(
    rows: Seq<ProdAttr>,
    offered: Seq<AttributeId>,
    prod_id: ProductId,
    attr_id: AttributeId,
) -> Option<Seq<char>> {
    match stored_value(rows, prod_id, attr_id) {
        Some(value) => Some(value),
        None => if offered.contains(attr_id) {
            Some(Seq::empty())
        } else {
            None
        },
    }
}

/// Whether the variant `prod_id` has every one of the values `asked`.
pub open spec fn variant_has_values(
    rows: Seq<ProdAttr>,
    offered: Seq<AttributeId>,
    prod_id: ProductId,
    asked: Seq<AttrValue>,
) -> bool {
    forall|i: int|
        0 <= i < asked.len() ==> value_on_variant(
            rows,
            offered,
            prod_id,
            (#[trigger] asked[i]).attr_id,
        ) == Some(asked[i].value@)
}

/// Whether a variant of the base product has every one of the values
/// `asked`.  The variants are those that have a stored row.
pub open spec fn values_are_taken(
    rows: Seq<ProdAttr>,
    offered: Seq<AttributeId>,
    asked: Seq<AttrValue>,
) -> bool {
    exists|r: int|
        0 <= r < rows.len() && variant_has_values(rows, offered, (#[trigger] rows[r]).prod_id, asked)
}

fn value_of_variant<'a>(
    rows: &'a Vec<ProdAttr>,
    offered: &Vec<AttributeId>,
    prod_id: ProductId,
    attr_id: AttributeId,
    empty: &'a String,
) -> (value: Option<&'a String>)
    requires
        empty@ == Seq::<char>::empty(),
    ensures
        match value {
            Some(found) => value_on_variant(rows@, offered@, prod_id, attr_id) == Some(found@),
            None => value_on_variant(rows@, offered@, prod_id, attr_id) is None,
        },
{
    let mut n: usize = rows.len();
    proof {
        assert(rows@.take(n as int) == rows@);
    }
    while n > 0
        invariant
            n <= rows@.len(),
            stored_value(rows@, prod_id, attr_id) == stored_value(
                rows@.take(n as int),
                prod_id,
                attr_id,
            ),
        decreases n,
    {
        proof {
            assert(rows@.take(n as int).drop_last() == rows@.take(n - 1));
            assert(rows@.take(n as int).last() == rows@[n - 1]);
        }
        if rows[n - 1].prod_id == prod_id && rows[n - 1].attr_id == attr_id {
            return Some(&rows[n - 1].value);
        }
        n = n - 1;
    }
    proof {
        assert(rows@.take(0).len() == 0);
    }
    let mut k: usize = 0;
    while k < offered.len()
        invariant
            k <= offered@.len(),
            empty@ == Seq::<char>::empty(),
            stored_value(rows@, prod_id, attr_id) is None,
            forall|j: int| 0 <= j < k ==> offered@[j] != attr_id,
        decreases offered@.len() - k,
    {
        if offered[k] == attr_id {
            assert(offered@[k as int] == attr_id);
            return Some(empty);
        }
        k = k + 1;
    }
    None
}

fn has_values(
    rows: &Vec<ProdAttr>,
    offered: &Vec<AttributeId>,
    prod_id: ProductId,
    asked: &Vec<AttrValue>,
    empty: &String,
) -> (r: bool)
    requires
        empty@ == Seq::<char>::empty(),
    ensures
        r == variant_has_values(rows@, offered@, prod_id, asked@),
{
    let mut i: usize = 0;
    while i < asked.len()
        invariant
            i <= asked@.len(),
            empty@ == Seq::<char>::empty(),
            forall|j: int|
                0 <= j < i ==> value_on_variant(
                    rows@,
                    offered@,
                    prod_id,
                    (#[trigger] asked@[j]).attr_id,
                ) == Some(asked@[j].value@),
        decreases asked@.len() - i,
    {
        let same = match value_of_variant(rows, offered, prod_id, asked[i].attr_id, empty) {
            Some(value) => *value == asked[i].value,
            None => false,
        };
        if !same {
            assert(value_on_variant(rows@, offered@, prod_id, asked@[i as int].attr_id) != Some(
                asked@[i as int].value@,
            ));
            return false;
        }
        i = i + 1;
    }
    true
}

/// Whether a new variant may have the values `new_product_attributes`: it
/// may unless a variant of the base product has every one of them already.
/// `base_attrs` are the stored values of all variants of the base product and
/// `available_attributes` are the attributes that the base product offers; a
/// variant without a row for an offered attribute has the empty value for it.
pub fn check_products_attribute_values_are_unique(
    base_attrs: &Vec<ProdAttr>,
    available_attributes: &Vec<AttributeId>,
    new_product_attributes: &Vec<AttrValue>,
) -> (r: Result<(), ServiceError>)
    ensures
        service_outcome(r) == if values_are_taken(
            base_attrs@,
            available_attributes@,
            new_product_attributes@,
        ) {
            Err::<(), ServiceErrorView>(validation_failure(ATTRIBUTES_FIELD@, ATTRIBUTES_TAKEN@))
        } else {
            Ok::<(), ServiceErrorView>(())
        },
{
    let empty = String::new();
    let mut r: usize = 0;
    while r < base_attrs.len()
        invariant
            r <= base_attrs@.len(),
            empty@ == Seq::<char>::empty(),
            forall|j: int|
                0 <= j < r ==> !variant_has_values(
                    base_attrs@,
                    available_attributes@,
                    (#[trigger] base_attrs@[j]).prod_id,
                    new_product_attributes@,
                ),
        decreases base_attrs@.len() - r,
    {
        if has_values(
            base_attrs,
            available_attributes,
            base_attrs[r].prod_id,
            new_product_attributes,
            &empty,
        ) {
            assert(variant_has_values(
                base_attrs@,
                available_attributes@,
                base_attrs@[r as int].prod_id,
                new_product_attributes@,
            ));
            return Err(ServiceError::invalid(ATTRIBUTES_FIELD, ATTRIBUTES_TAKEN));
        }
        r = r + 1;
    }
    Ok(())
}

/// The identifiers of the values that the rows refer to, in the order of the
/// rows; a row that refers to none adds none.
pub open spec fn referred_values(rows: Seq<ProdAttr>) -> Seq<AttributeValueId>
    decreases rows.len(),
{
    if rows.len() == 0 {
        Seq::empty()
    } else {
        match rows.last().attr_value_id {
            Some(id) => referred_values(rows.drop_last()).push(id),
            None => referred_values(rows.drop_last()),
        }
    }
}

/// The identifiers of the attribute values that are to be read for the rows
/// of a variant.
pub fn attribute_value_ids(rows: &Vec<ProdAttr>) -> (ids: Vec<AttributeValueId>)
    ensures
        ids@ == referred_values(rows@),
{
    let mut ids: Vec<AttributeValueId> = Vec::new();
    let mut i: usize = 0;
    while i < rows.len()
        invariant
            i <= rows@.len(),
            ids@ == referred_values(rows@.take(i as int)),
        decreases rows@.len() - i,
    {
        proof {
            assert(rows@.take(i + 1).drop_last() == rows@.take(i as int));
            assert(rows@.take(i + 1).last() == rows@[i as int]);
        }
        match rows[i].attr_value_id {
            Some(id) => {
                ids.push(id);
            },
            None => {},
        }
        i = i + 1;
    }
    proof {
        assert(rows@.take(i as int) == rows@);
    }
    ids
}

/// The translations of the first of `values` with the identifier `id`, if
/// one has it and is translated.
pub open spec fn translations_of(values: Seq<AttributeValue>, id: Option<AttributeValueId>)
    -> Option<serde_json::Value>
    decreases values.len(),
{
    if values.len() == 0 {
        None
    } else if Some(values.first().id) == id {
        values.first().translations
    } else {
        translations_of(values.drop_first(), id)
    }
}

/// Whether `answer` is how the row `row` is answered: with the row's
/// attribute, value and meta field, and with the translations of the value
/// that the row refers to.
pub open spec fn answers_row(answer: AttrValue, row: ProdAttr, values: Seq<AttributeValue>)
    -> bool {
    &&& answer.attr_id == row.attr_id
    &&& answer.attr_value_id == row.attr_value_id
    &&& answer.value == row.value
    &&& answer.meta_field == row.meta_field
    &&& answer.translations == translations_of(values, row.attr_value_id)
}

fn find_translations(values: &Vec<AttributeValue>, id: Option<AttributeValueId>) -> (found: Option<
    serde_json::Value,
>)
    ensures
        found == translations_of(values@, id),
{
    let wanted = match id {
        Some(wanted) => wanted,
        None => {
            proof {
                no_value_without_identifier(values@);
            }
            return None;
        },
    };
    let mut i: usize = 0;
    proof {
        assert(values@.skip(0) == values@);
    }
    while i < values.len()
        invariant
            i <= values@.len(),
            id == Some(wanted),
            translations_of(values@, id) == translations_of(values@.skip(i as int), id),
        decreases values@.len() - i,
    {
        proof {
            assert(values@.skip(i as int).first() == values@[i as int]);
            assert(values@.skip(i as int).drop_first() == values@.skip(i + 1));
        }
        if values[i].id == wanted {
            return match &values[i].translations {
                Some(translations) => Some(translations.clone()),
                None => None,
            };
        }
        i = i + 1;
    }
    proof {
        assert(values@.skip(i as int).len() == 0);
    }
    None
}

proof fn no_value_without_identifier(values: Seq<AttributeValue>)
    ensures
        translations_of(values, None) is None,
    decreases values.len(),
{
    if values.len() > 0 {
        no_value_without_identifier(values.drop_first());
    }
}

/// Answers the rows of a variant: each row with its attribute, value and
/// meta field, and with the translations of the value that it refers to.
pub fn find_products_attributes(pr_attrs: Vec<ProdAttr>, values: &Vec<AttributeValue>) -> (answers:
    Vec<AttrValue>)
    ensures
        answers@.len() == pr_attrs@.len(),
        forall|i: int|
            0 <= i < answers@.len() ==> answers_row(#[trigger] answers@[i], pr_attrs@[i], values@),
{
    let ghost all = pr_attrs@;
    let mut answers: Vec<AttrValue> = Vec::new();
    for pr_attr in iter: pr_attrs
        invariant
            iter.seq() == all,
            answers@.len() == iter.index(),
            forall|i: int|
                0 <= i < answers@.len() ==> answers_row(#[trigger] answers@[i], all[i], values@),
    {
        let translations = find_translations(values, pr_attr.attr_value_id);
        answers.push(
            AttrValue {
                translations,
                attr_id: pr_attr.attr_id,
                attr_value_id: pr_attr.attr_value_id,
                value: pr_attr.value,
                meta_field: pr_attr.meta_field,
            },
        );
    }
    answers
}

/// A value that is asked for, completed from the stored attribute value
/// that it names: it refers to that value and carries its translations.
pub fn fill_attr_value(attr_value: AttrValue, found: AttributeValue) -> (filled: AttrValue)
    ensures
        filled.attr_value_id == Some(found.id),
        filled.translations == found.translations,
        filled.attr_id == attr_value.attr_id,
        filled.value == attr_value.value,
        filled.meta_field == attr_value.meta_field,
{
    AttrValue {
        attr_value_id: Some(found.id),
        translations: found.translations,
        attr_id: attr_value.attr_id,
        value: attr_value.value,
        meta_field: attr_value.meta_field,
    }
}

/// The row that gives a variant a value: the value as asked for, typed as
/// its attribute says.  A value of an attribute that does not exist is "not
/// found".
pub fn create_product_attributes_values(
    product_id: ProductId,
    base_product_id: BaseProductId,
    attr_value: AttrValue,
    attr: Option<&Attribute>,
) -> (r: Result<NewProdAttr, ServiceError>)
    ensures
        match attr {
            None => r matches Err(e) && e@ == ServiceErrorView::NotFound,
            Some(attribute) => r matches Ok(row) && row.prod_id == product_id && row.base_prod_id
                == base_product_id && row.attr_id == attr_value.attr_id && row.value
                == attr_value.value && row.value_type == attribute.value_type && row.meta_field
                == attr_value.meta_field && row.attr_value_id == attr_value.attr_value_id,
        },
{
    match attr {
        None => Err(ServiceError::NotFound),
        Some(attribute) => Ok(
            NewProdAttr::new(
                product_id,
                base_product_id,
                attr_value.attr_id,
                attr_value.value,
                attribute.value_type,
                attr_value.meta_field,
                attr_value.attr_value_id,
            ),
        ),
    }
}

/// What happened during the creation of a variant.
#[derive(Debug, Clone, Copy, PartialEq, Eq, Structural)]
pub enum CreateEvent {
    /// The payload was taken up; it names this base product, if any.
    Received { base_product_id: Option<BaseProductId> },
    /// The base product was looked up; it belongs to this store, if it exists.
    BaseProductLookedUp { store_id: Option<StoreId> },
    /// The vendor code was looked up in the store.
    VendorCodeLookedUp { exists: Option<bool> },
    /// The variant was written.
    Written,
    /// The values of the variant's attributes were written.
    AttributesWritten,
}

/// What to do next in the creation of a variant.
#[derive(Debug, Clone, Copy, PartialEq, Eq, Structural)]
pub enum CreateAction {
    /// Look up the base product among the active ones.
    LookUpBaseProduct(BaseProductId),
    /// Look up the vendor code in the store.
    LookUpVendorCode(StoreId),
    /// Write the variant.
    Write,
    /// Write the values of the variant's attributes.
    WriteAttributes,
    /// Answer with the variant.
    Finish,
}

/// What follows an event in the creation of a variant.  A payload without
/// a base product, and a base product that does not exist, fail as "not
/// found"; a vendor code that the store has fails as a validation failure.
/// Nothing is written before these have passed.
pub open spec fn create_next_spec(event: CreateEvent) -> Result<CreateAction, ServiceErrorView> {
    match event {
        CreateEvent::Received { base_product_id } => match base_product_id {
            Some(id) => Ok(CreateAction::LookUpBaseProduct(id)),
            None => Err(ServiceErrorView::NotFound),
        },
        CreateEvent::BaseProductLookedUp { store_id } => match store_id {
            Some(id) => Ok(CreateAction::LookUpVendorCode(id)),
            None => Err(ServiceErrorView::NotFound),
        },
        CreateEvent::VendorCodeLookedUp { exists } => match exists {
            None => Err(ServiceErrorView::NotFound),
            Some(true) => Err(validation_failure(VENDOR_CODE_FIELD@, VENDOR_CODE_TAKEN@)),
            Some(false) => Ok(CreateAction::Write),
        },
        CreateEvent::Written => Ok(CreateAction::WriteAttributes),
        CreateEvent::AttributesWritten => Ok(CreateAction::Finish),
    }
}

/// Says what to do next in the creation of a variant.
pub fn create_product(event: CreateEvent) -> (r: Result<CreateAction, ServiceError>)
    ensures
        service_outcome(r) == create_next_spec(event),
{
    match event {
        CreateEvent::Received { base_product_id } => match base_product_id {
            Some(id) => Ok(CreateAction::LookUpBaseProduct(id)),
            None => Err(ServiceError::NotFound),
        },
        CreateEvent::BaseProductLookedUp { store_id } => match store_id {
            Some(id) => Ok(CreateAction::LookUpVendorCode(id)),
            None => Err(ServiceError::NotFound),
        },
        CreateEvent::VendorCodeLookedUp { exists } => match check_vendor_code(exists) {
            Ok(()) => Ok(CreateAction::Write),
            Err(e) => Err(e),
        },
        CreateEvent::Written => Ok(CreateAction::WriteAttributes),
        CreateEvent::AttributesWritten => Ok(CreateAction::Finish),
    }
}

/// What an update of a variant asks for, as far as the steps of the update
/// depend on it.
#[derive(Debug, Clone)]
pub struct UpdateRequest {
    /// Whether the variant itself is to be changed.
    pub changes_product: bool,
    /// The vendor code that the variant is to get, if it is to get one.
    pub vendor_code: Option<String>,
    /// Whether the values of the variant's attributes are to be replaced.
    pub replaces_attributes: bool,
}

/// What happened during the update of a variant.
#[derive(Debug, Clone)]
pub enum UpdateEvent {
    /// The variant was looked up; if it exists, it has this vendor code.
    Found { vendor_code: Option<String> },
    /// The variant's base product was looked up; it belongs to this store,
    /// if it exists.  The variant has the vendor code `vendor_code`.
    BaseProductLookedUp { store_id: Option<StoreId>, vendor_code: String },
    /// The new vendor code was looked up in the store.
    VendorCodeLookedUp { exists: Option<bool> },
    /// The variant was written, or was left as it is.
    Written,
    /// The values of the variant's attributes were written.
    AttributesWritten,
}

/// What to do next in the update of a variant.
#[derive(Debug, Clone, Copy, PartialEq, Eq, Structural)]
pub enum UpdateAction {
    /// Look up the variant's base product among the active ones.
    LookUpBaseProduct,
    /// Look up the new vendor code in the store.
    LookUpVendorCode(StoreId),
    /// Write the variant.
    Write,
    /// Write the values of the variant's attributes.
    WriteAttributes,
    /// Answer with the variant.
    Finish,
}

/// The step after the variant has been written or left as it is.
pub open spec fn after_write(request: &UpdateRequest) -> UpdateAction {
    if request.replaces_attributes {
        UpdateAction::WriteAttributes
    } else {
        UpdateAction::Finish
    }
}

/// What follows an event in the update of a variant.  A variant that does
/// not exist fails as "not found".  A variant that is not to be changed is
/// not written.  A change without a vendor code is written at once.  For a
/// change with a vendor code the base product is looked up, and fails the
/// update as "not found" if it does not exist; a vendor code that differs
/// from the variant's is looked up in the store and fails the update if the
/// store has it.  The values of the attributes are written last, if they are
/// to be replaced.
pub open spec fn update_next_spec(request: &UpdateRequest, event: &UpdateEvent) -> Result<
    UpdateAction,
    ServiceErrorView,
> {
    match event {
        UpdateEvent::Found { vendor_code } => match vendor_code {
            None => Err(ServiceErrorView::NotFound),
            Some(_) => if !request.changes_product {
                Ok(after_write(request))
            } else if request.vendor_code is Some {
                Ok(UpdateAction::LookUpBaseProduct)
            } else {
                Ok(UpdateAction::Write)
            },
        },
        UpdateEvent::BaseProductLookedUp { store_id, vendor_code } => match store_id {
            None => Err(ServiceErrorView::NotFound),
            Some(store) => match request.vendor_code {
                Some(asked) => if asked@ != vendor_code@ {
                    Ok(UpdateAction::LookUpVendorCode(*store))
                } else {
                    Ok(UpdateAction::Write)
                },
                None => Ok(UpdateAction::Write),
            },
        },
        UpdateEvent::VendorCodeLookedUp { exists } => match exists {
            None => Err(ServiceErrorView::NotFound),
            Some(true) => Err(validation_failure(VENDOR_CODE_FIELD@, VENDOR_CODE_TAKEN@)),
            Some(false) => Ok(UpdateAction::Write),
        },
        UpdateEvent::Written => Ok(after_write(request)),
        UpdateEvent::AttributesWritten => Ok(UpdateAction::Finish),
    }
}

/// Says what to do next in the update of a variant.
pub fn update_product(request: &UpdateRequest, event: &UpdateEvent) -> (r: Result<
    UpdateAction,
    ServiceError,
>)
    ensures
        service_outcome(r) == update_next_spec(request, event),
{
    match event {
        UpdateEvent::Found { vendor_code } => match vendor_code {
            None => Err(ServiceError::NotFound),
            Some(_) => if !request.changes_product {
                Ok(next_after_write(request))
            } else if request.vendor_code.is_some() {
                Ok(UpdateAction::LookUpBaseProduct)
            } else {
                Ok(UpdateAction::Write)
            },
        },
        UpdateEvent::BaseProductLookedUp { store_id, vendor_code } => match store_id {
            None => Err(ServiceError::NotFound),
            Some(store) => match &request.vendor_code {
                Some(asked) => if *asked != *vendor_code {
                    Ok(UpdateAction::LookUpVendorCode(*store))
                } else {
                    Ok(UpdateAction::Write)
                },
                None => Ok(UpdateAction::Write),
            },
        },
        UpdateEvent::VendorCodeLookedUp { exists } => match check_vendor_code(*exists) {
            Ok(()) => Ok(UpdateAction::Write),
            Err(e) => Err(e),
        },
        UpdateEvent::Written => Ok(next_after_write(request)),
        UpdateEvent::AttributesWritten => Ok(UpdateAction::Finish),
    }
}

fn next_after_write(request: &UpdateRequest) -> (action: UpdateAction)
    ensures
        action == after_write(request),
{
    if request.replaces_attributes {
        UpdateAction::WriteAttributes
    } else {
        UpdateAction::Finish
    }
}

} // verus!
