//! Step-by-step configuration of a framework.

use vstd::prelude::*;
use crate::bridge::EventBridge;
use crate::framework::{BuiltClient, Framework, FrameworkState};
use crate::options::{ApplicationId, FrameworkOptions};

verus! {

/// Collects what a framework is constructed from. Each setter replaces what
/// an earlier call of the same setter gave.
pub struct FrameworkBuilder<S, T> {
    /// The application identifier, once given.
    pub application_id: Option<ApplicationId>,
    /// The setup callback, once given.
    pub user_data_setup: Option<S>,
    /// The options, once given.
    pub options: Option<FrameworkOptions<T>>,
}

/// Why a builder produced no framework.
pub enum BuildError<X> {
    /// No application identifier was given.
    MissingApplicationId,
    /// No setup callback was given.
    MissingSetup,
    /// No options were given.
    MissingOptions,
    /// Building the client failed with this error.
    Client(X),
}

impl<S, T> Default for FrameworkBuilder<S, T> {
    fn default() -> (builder: Self)
        ensures
            builder.application_id is None,
            builder.user_data_setup is None,
            builder.options is None,
    {
        FrameworkBuilder { application_id: None, user_data_setup: None, options: None }
    }
}

impl<S, T> FrameworkBuilder<S, T> {
    /// What `build` returns for a builder in this configuration, given the
    /// outcome of building the client: the first missing part is reported,
    /// then a failed client build, and a complete configuration is assembled.
    pub open spec fn outcome<C, M, X>(self, client: Result<BuiltClient<C, M>, X>) -> Result<
        FrameworkState<C, M, S, T>,
        BuildError<X>,
    > {
        if self.application_id is None {
            Err(BuildError::MissingApplicationId)
        } else if self.user_data_setup is None {
            Err(BuildError::MissingSetup)
        } else if self.options is None {
            Err(BuildError::MissingOptions)
        } else {
            match client {
                Ok(built) => Ok(
                    FrameworkState::assembled(
                        self.application_id->Some_0,
                        built,
                        self.user_data_setup->Some_0,
                        self.options->Some_0,
                    ),
                ),
                Err(error) => Err(BuildError::Client(error)),
            }
        }
    }

    /// Sets the application identifier.
    pub fn application_id(self, id: ApplicationId) -> (builder: Self)
        ensures
            builder.application_id == Some(id),
            builder.user_data_setup == self.user_data_setup,
            builder.options == self.options,
    {
        FrameworkBuilder {
            application_id: Some(id),
            user_data_setup: self.user_data_setup,
            options: self.options,
        }
    }

    /// Sets the callback that produces the application data.
    pub fn user_data_setup(self, setup: S) -> (builder: Self)
        ensures
            builder.application_id == self.application_id,
            builder.user_data_setup == Some(setup),
            builder.options == self.options,
    {
        FrameworkBuilder {
            application_id: self.application_id,
            user_data_setup: Some(setup),
            options: self.options,
        }
    }

    /// Sets the options.
    pub fn options(self, options: FrameworkOptions<T>) -> (builder: Self)
        ensures
            builder.application_id == self.application_id,
            builder.user_data_setup == self.user_data_setup,
            builder.options == Some(options),
    {
        FrameworkBuilder {
            application_id: self.application_id,
            user_data_setup: self.user_data_setup,
            options: Some(options),
        }
    }

    /// Constructs the framework from the collected parts and the outcome of
    /// building the client, and binds `bridge` to it. The bridge changes
    /// exactly when a framework is returned.
    pub fn build<C, M, X>(
        self,
        client: Result<BuiltClient<C, M>, X>,
        bridge: &mut EventBridge,
    ) -> (framework: Result<Framework<C, M, S, T>, BuildError<X>>)
        ensures
            match self.outcome(client) {
                Ok(state) => framework is Ok && framework->Ok_0@ == state && final(bridge)@
                    == EventBridge::bound(old(bridge)@, state.application_id),
                Err(error) => framework == Err::<Framework<C, M, S, T>, BuildError<X>>(error)
                    && final(bridge)@ == old(bridge)@,
            },
    {
        let application_id = match self.application_id {
            Some(id) => id,
            None => { return Err(BuildError::MissingApplicationId); },
        };
        let user_data_setup = match self.user_data_setup {
            Some(setup) => setup,
            None => { return Err(BuildError::MissingSetup); },
        };
        let options = match self.options {
            Some(options) => options,
            None => { return Err(BuildError::MissingOptions); },
        };
        match Framework::new(application_id, client, user_data_setup, options, bridge) {
            Ok(framework) => Ok(framework),
            Err(error) => Err(BuildError::Client(error)),
        }
    }
}

} // verus!
