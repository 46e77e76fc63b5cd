//! What the store service decides: whether a store may be created or
//! updated with the name and slug that are asked for.
use crate::services::error::service_outcome;
use crate::services::error::validation_failure;
use crate::services::error::ServiceError;
use crate::services::error::ServiceErrorView;
use vstd::prelude::*;

verus! {

/// Field of the failure that reports a name that is taken.
pub const NAME_FIELD: &'static str = "name";

/// Text of the failure that reports a store's name that is taken.
pub const NAME_TAKEN: &'static str = "Store with this name already exists";

/// Field of the failure that reports a slug that is taken.
pub const SLUG_FIELD: &'static str = "slug";

/// Text of the failure that reports a store's slug that is taken.
pub const SLUG_TAKEN: &'static str = "Store with this slug already exists";

/// What happened during the creation of a store.
#[derive(Debug, Clone)]
pub enum CreateEvent {
    /// The translations of the name were read from the payload, or could
    /// not be, for the reason given.
    NameParsed { failure: Option<String> },
    /// It was looked up whether a store has one of the names.
    NameLookedUp { exists: bool },
    /// It was looked up whether a store has the slug.
    SlugLookedUp { exists: bool },
    /// The store was written.
    Written,
}

/// What to do next in the creation of a store.
#[derive(Debug, Clone, Copy, PartialEq, Eq, Structural)]
pub enum CreateAction {
    /// Look up whether a store has one of the names.
    LookUpName,
    /// Look up whether a store has the slug.
    LookUpSlug,
    /// Write the store.
    Write,
    /// Answer with the store.
    Finish,
}

/// What follows an event in the creation of a store.  A name that cannot
/// be read fails as a parse error with the reason.  The name is looked up
/// before the slug, so a store that has both taken is told about the name.
/// Nothing is written unless both are free.
pub open spec fn create_next_spec(event: &CreateEvent) -> Result<CreateAction, ServiceErrorView> {
    match event {
        CreateEvent::NameParsed { failure } => match failure {
            Some(reason) => Err(ServiceErrorView::Parse(reason@)),
            None => Ok(CreateAction::LookUpName),
        },
        CreateEvent::NameLookedUp { exists } => if *exists {
            Err(validation_failure(NAME_FIELD@, NAME_TAKEN@))
        } else {
            Ok(CreateAction::LookUpSlug)
        },
        CreateEvent::SlugLookedUp { exists } => if *exists {
            Err(validation_failure(SLUG_FIELD@, SLUG_TAKEN@))
        } else {
            Ok(CreateAction::Write)
        },
        CreateEvent::Written => Ok(CreateAction::Finish),
    }
}

/// Says what to do next in the creation of a store.
pub fn create(event: CreateEvent) -> (r: Result<CreateAction, ServiceError>)
    ensures
        service_outcome(r) == create_next_spec(&event),
{
    match event {
        CreateEvent::NameParsed { failure } => match failure {
            Some(reason) => Err(ServiceError::Parse(reason)),
            None => Ok(CreateAction::LookUpName),
        },
        CreateEvent::NameLookedUp { exists } => if exists {
            Err(ServiceError::invalid(NAME_FIELD, NAME_TAKEN))
        } else {
            Ok(CreateAction::LookUpSlug)
        },
        CreateEvent::SlugLookedUp { exists } => if exists {
            Err(ServiceError::invalid(SLUG_FIELD, SLUG_TAKEN))
        } else {
            Ok(CreateAction::Write)
        },
        CreateEvent::Written => Ok(CreateAction::Finish),
    }
}

/// What happened during the update of a store.
#[derive(Debug, Clone)]
pub enum UpdateEvent {
    /// The store was read as it is stored, with this slug.
    Found { slug: String },
    /// It was looked up whether another store has the new slug.
    SlugLookedUp { exists: bool },
    /// The update was written.
    Written,
}

/// What to do next in the update of a store.
#[derive(Debug, Clone, Copy, PartialEq, Eq, Structural)]
pub enum UpdateAction {
    /// Look up whether another store has the slug that is asked for.
    LookUpSlug,
    /// Write the update.
    Write,
    /// Answer with the updated store.
    Finish,
}

/// What follows an event in the update of a store, where `asked` is the slug
/// that the update asks for.  No slug, or the slug that the store has,
/// needs no lookup.  A slug that another store has fails the update before
/// anything is written.
pub open spec fn update_next_spec(asked: Option<Seq<char>>, event: &UpdateEvent) -> Result<
    UpdateAction,
    ServiceErrorView,
> {
    match event {
        UpdateEvent::Found { slug } => match asked {
            Some(asked) => if asked == slug@ {
                Ok(UpdateAction::Write)
            } else {
                Ok(UpdateAction::LookUpSlug)
            },
            None => Ok(UpdateAction::Write),
        },
        UpdateEvent::SlugLookedUp { exists } => if *exists {
            Err(validation_failure(SLUG_FIELD@, SLUG_TAKEN@))
        } else {
            Ok(UpdateAction::Write)
        },
        UpdateEvent::Written => Ok(UpdateAction::Finish),
    }
}

/// Says what to do next in the update of a store.
pub fn update(asked: &Option<String>, event: &UpdateEvent) -> (r: Result<
    UpdateAction,
    ServiceError,
>)
    ensures
        service_outcome(r) == update_next_spec(
            match asked {
                Some(slug) => Some(slug@),
                None => None,
            },
            event,
        ),
{
    match event {
        UpdateEvent::Found { slug } => match asked {
            Some(asked) => if *asked == *slug {
                Ok(UpdateAction::Write)
            } else {
                Ok(UpdateAction::LookUpSlug)
            },
            None => Ok(UpdateAction::Write),
        },
        UpdateEvent::SlugLookedUp { exists } => if *exists {
            Err(ServiceError::invalid(SLUG_FIELD, SLUG_TAKEN))
        } else {
            Ok(UpdateAction::Write)
        },
        UpdateEvent::Written => Ok(UpdateAction::Finish),
    }
}

/// A store with a taken name or slug is never written: whatever the
/// lookups answer, the step after a lookup that found a store is a failure.
pub proof fn taken_name_or_slug_is_not_written(exists: bool)
    ensures
        exists ==> create_next_spec(&CreateEvent::NameLookedUp { exists }) is Err,
        exists ==> create_next_spec(&CreateEvent::SlugLookedUp { exists }) is Err,
        !exists ==> create_next_spec(&CreateEvent::SlugLookedUp { exists }) == Ok::<
            CreateAction,
            ServiceErrorView,
        >(CreateAction::Write),
{
}

} // verus!
