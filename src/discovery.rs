use vstd::prelude::*;
use crate::error::{other, Error, ErrorModel};
use crate::status::{CacheMode, CommunicationStatus};

verus! {

/// The three GATT enumerations that a device performs.
#[derive(Clone, Copy, Debug, PartialEq, Eq, Structural)]
pub enum Enumeration {
    /// The services of the device, kept in its cache.
    Services,
    /// The characteristics of a service.
    Characteristics,
    /// The descriptors of a characteristic.
    Descriptors,
}

/// Services may come from the platform's cache; the children of a service
/// are volatile and are always read live.
pub open spec fn cache_mode_spec(e: Enumeration) -> CacheMode {
    match e {
        Enumeration::Services => CacheMode::Cached,
        _ => CacheMode::Uncached,
    }
}

impl Enumeration {
    /// The cache mode that this enumeration is requested in.
    pub fn cache_mode(&self) -> (r: CacheMode)
        ensures
            r == cache_mode_spec(*self),
    {
        match self {
            Enumeration::Services => CacheMode::Cached,
            _ => CacheMode::Uncached,
        }
    }
}

/// What to do once an enumeration request has completed.
#[derive(Debug, PartialEq, Eq)]
pub enum Listing {
    /// Read the enumerated items.
    Fetch,
    /// Read nothing: the request yields no items and no error.
    Nothing,
    /// Read nothing: the request fails with this error.
    Fail(Error),
}

/// What a `Listing` says, with its error seen through the error's view.
pub enum ListingModel {
    Fetch,
    Nothing,
    Fail(ErrorModel),
}

impl View for Listing {
    type V = ListingModel;

    open spec fn view(&self) -> ListingModel {
        match self {
            Listing::Fetch => ListingModel::Fetch,
            Listing::Nothing => ListingModel::Nothing,
            Listing::Fail(e) => ListingModel::Fail(e@),
        }
    }
}

/// Service enumeration: a success is read; any other status leaves the
/// cache as it was; a failed platform call is an error.
pub open spec fn services_listing_spec(status: Result<CommunicationStatus, String>) -> ListingModel {
    match status {
        Ok(CommunicationStatus::Success) => ListingModel::Fetch,
        Ok(_) => ListingModel::Nothing,
        Err(d) => ListingModel::Fail(ErrorModel::Other(d@)),
    }
}

/// Characteristic enumeration: a protocol error fails, any other
/// non-success status yields an empty list.
pub open spec fn characteristics_listing_spec(status: Result<CommunicationStatus, String>) -> ListingModel {
    match status {
        Ok(CommunicationStatus::Success) => ListingModel::Fetch,
        Ok(CommunicationStatus::ProtocolError) => ListingModel::Fail(
            ErrorModel::Other("characteristic enumeration encountered a protocol error"@),
        ),
        Ok(CommunicationStatus::Failure(_)) => ListingModel::Nothing,
        Err(d) => ListingModel::Fail(ErrorModel::Other(d@)),
    }
}

/// Descriptor enumeration: every non-success status fails.
pub open spec fn descriptors_listing_spec(status: Result<CommunicationStatus, String>) -> ListingModel {
    match status {
        Ok(CommunicationStatus::Success) => ListingModel::Fetch,
        Ok(_) => ListingModel::Fail(ErrorModel::Other("descriptor enumeration did not succeed"@)),
        Err(d) => ListingModel::Fail(ErrorModel::Other(d@)),
    }
}

/// Decides what a service enumeration (requested in
/// `Enumeration::Services.cache_mode()`) that completed with `status` leads
/// to. `status` is `Err` with the diagnostic where the platform call or the
/// reading of its status failed.
pub fn services_listing(status: Result<CommunicationStatus, String>) -> (r: Listing)
    ensures
        r@ == services_listing_spec(status),
{
    match status {
        Ok(CommunicationStatus::Success) => Listing::Fetch,
        Ok(_) => Listing::Nothing,
        Err(d) => Listing::Fail(Error::Other(d)),
    }
}

/// Decides what a characteristic enumeration (requested in
/// `Enumeration::Characteristics.cache_mode()`) that completed with `status`
/// leads to.
pub fn characteristics_listing(status: Result<CommunicationStatus, String>) -> (r: Listing)
    ensures
        r@ == characteristics_listing_spec(status),
{
    match status {
        Ok(CommunicationStatus::Success) => Listing::Fetch,
        Ok(CommunicationStatus::ProtocolError) => Listing::Fail(
            other("characteristic enumeration encountered a protocol error"),
        ),
        Ok(CommunicationStatus::Failure(_)) => Listing::Nothing,
        Err(d) => Listing::Fail(Error::Other(d)),
    }
}

/// Decides what a descriptor enumeration (requested in
/// `Enumeration::Descriptors.cache_mode()`) that completed with `status`
/// leads to.
pub fn descriptors_listing(status: Result<CommunicationStatus, String>) -> (r: Listing)
    ensures
        r@ == descriptors_listing_spec(status),
{
    match status {
        Ok(CommunicationStatus::Success) => Listing::Fetch,
        Ok(_) => Listing::Fail(other("descriptor enumeration did not succeed")),
        Err(d) => Listing::Fail(Error::Other(d)),
    }
}

/// Characteristic enumeration tolerates a non-success status that is not a
/// protocol error as an empty result, where descriptor enumeration fails
/// with `Other` on every non-success status.
pub proof fn lemma_listing_contrast(status: CommunicationStatus)
    requires
        status != CommunicationStatus::Success,
    ensures
        descriptors_listing_spec(Ok(status)) matches ListingModel::Fail(ErrorModel::Other(_)),
        characteristics_listing_spec(Ok(status)) matches ListingModel::Fail(ErrorModel::Other(_))
            <==> status == CommunicationStatus::ProtocolError,
        characteristics_listing_spec(Ok(status)) is Nothing <==> status
            != CommunicationStatus::ProtocolError,
{
}

/// The services found by the most recent successful cached discovery, in
/// the order in which the platform enumerated them; empty before the first.
pub struct ServiceCache<V> {
    services: Vec<V>,
}

impl<V> View for ServiceCache<V> {
    type V = Seq<V>;

    closed spec fn view(&self) -> Seq<V> {
        self.services@
    }
}

impl<V> ServiceCache<V> {
    pub fn new() -> (r: ServiceCache<V>)
        ensures
            r@ == Seq::<V>::empty(),
    {
        ServiceCache { services: Vec::new() }
    }

    /// The cached services.
    pub fn services(&self) -> (r: &[V])
        ensures
            r@ == self@,
    {
        self.services.as_slice()
    }

    pub fn len(&self) -> (r: usize)
        ensures
            r == self@.len(),
    {
        self.services.len()
    }

    /// Stores what a successful discovery enumerated, or reports the failed
    /// reading of it: the cache is replaced whole, or left as it was.
    pub fn store_services(&mut self, fetched: Result<Vec<V>, String>) -> (r: Result<(), Error>)
        ensures
            match fetched {
                Ok(found) => r is Ok && final(self)@ == found@,
                Err(d) => r matches Err(e) && e@ == ErrorModel::Other(d@) && final(self)@ == old(
                    self,
                )@,
            },
    {
        match fetched {
            Ok(found) => {
                self.services = found;
                Ok(())
            },
            Err(d) => Err(Error::Other(d)),
        }
    }
}

} // verus!
