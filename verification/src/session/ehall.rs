//! Logging in to the service hall, which leaves the work to the central login
//! service.
use crate::session::ids::IDSLoginImpl;
use vstd::prelude::*;

verus! {

/// A login to the service hall: a login to the central service that leads
/// there.
#[derive(Debug)]
pub struct EhallLoginImpl {
    inner: IDSLoginImpl,
}

impl EhallLoginImpl {
    /// The login to the central service that this one rests on.
    pub closed spec fn spec_inner(&self) -> IDSLoginImpl {
        self.inner
    }

    /// The login that leads to the service hall.
    pub fn new() -> (r: Self)
        ensures
            r.spec_inner().spec_target()@ == IDSLoginImpl::TARGET_EHALL_URL@,
    {
        EhallLoginImpl { inner: IDSLoginImpl::target_ehall() }
    }

    /// The login to the service hall that goes through `inner`.
    pub closed spec fn spec_from(inner: IDSLoginImpl) -> EhallLoginImpl {
        EhallLoginImpl { inner }
    }

    /// A login made from a login to the central service rests on it.
    pub proof fn lemma_from_keeps_inner(inner: IDSLoginImpl)
        ensures
            Self::spec_from(inner).spec_inner() == inner,
    {
    }

    /// The login to the central service that this one rests on.
    pub fn inner(&self) -> (inner: &IDSLoginImpl)
        ensures
            *inner == self.spec_inner(),
    {
        &self.inner
    }
}

impl From<IDSLoginImpl> for EhallLoginImpl {
    /// A login to the service hall that goes through `value`.
    fn from(value: IDSLoginImpl) -> (r: Self) {
        EhallLoginImpl { inner: value }
    }
}

impl vstd::std_specs::convert::FromSpecImpl<IDSLoginImpl> for EhallLoginImpl {
    open spec fn obeys_from_spec() -> bool {
        true
    }

    open spec fn from_spec(value: IDSLoginImpl) -> EhallLoginImpl {
        EhallLoginImpl::spec_from(value)
    }
}

impl std::ops::Deref for EhallLoginImpl {
    type Target = IDSLoginImpl;

    fn deref(&self) -> (inner: &IDSLoginImpl)
        ensures
            *inner == self.spec_inner(),
    {
        &self.inner
    }
}

impl Default for EhallLoginImpl {
    fn default() -> (r: Self)
        ensures
            r.spec_inner().spec_target()@ == IDSLoginImpl::TARGET_EHALL_URL@,
    {
        Self::new()
    }
}

/// An application of the service hall.
#[derive(Debug)]
pub struct App {
    app_id: String,
    app_name: String,
    middle_icon: String,
    app_type: i32,
    description: Option<String>,
}

impl App {
    /// The identifier of the application.
    pub closed spec fn spec_app_id(&self) -> String {
        self.app_id
    }

    /// The name of the application.
    pub closed spec fn spec_app_name(&self) -> String {
        self.app_name
    }

    /// The address of the application's icon.
    pub closed spec fn spec_middle_icon(&self) -> String {
        self.middle_icon
    }

    /// The kind of the application.
    pub closed spec fn spec_app_type(&self) -> i32 {
        self.app_type
    }

    /// What the application is for, if the server says.
    pub closed spec fn spec_description(&self) -> Option<String> {
        self.description
    }

    /// An application with the given fields.
    pub fn new(
        app_id: String,
        app_name: String,
        middle_icon: String,
        app_type: i32,
        description: Option<String>,
    ) -> (app: App)
        ensures
            app.spec_app_id() == app_id,
            app.spec_app_name() == app_name,
            app.spec_middle_icon() == middle_icon,
            app.spec_app_type() == app_type,
            app.spec_description() == description,
    {
        App { app_id, app_name, middle_icon, app_type, description }
    }

    /// The identifier of the application.
    pub fn app_id(&self) -> (r: &String)
        ensures
            *r == self.spec_app_id(),
    {
        &self.app_id
    }

    /// The name of the application.
    pub fn app_name(&self) -> (r: &String)
        ensures
            *r == self.spec_app_name(),
    {
        &self.app_name
    }

    /// The address of the application's icon.
    pub fn middle_icon(&self) -> (r: &String)
        ensures
            *r == self.spec_middle_icon(),
    {
        &self.middle_icon
    }

    /// The kind of the application.
    pub fn app_type(&self) -> (r: &i32)
        ensures
            *r == self.spec_app_type(),
    {
        &self.app_type
    }

    /// What the application is for, if the server says.
    pub fn description(&self) -> (r: &Option<String>)
        ensures
            *r == self.spec_description(),
    {
        &self.description
    }
}

} // verus!
