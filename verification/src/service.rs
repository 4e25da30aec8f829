//! Auxiliary service required by the server

use vstd::prelude::*;
use crate::environment::{clone_variables, Variable, VariableView};
use crate::error::{image_problem, Field, ValidationError};
use crate::wait::{clone_wait, WaitFor, WaitForView};

verus! {

/// Auxiliary service required by the server
///
/// The server might require additional services to work, e.g. a database. Each service runs as
/// a container and can be configured with environment variables. The server reaches a service
/// under the name of the service's image: with a service `postgres`, the server can connect to
/// `postgres:5432`. The image name and the tag of a service are not empty.
#[derive(Debug)]
pub struct Service {
    image: String,
    tag: String,
    envs: Vec<Variable>,
    wait: Option<WaitFor>,
}

/// What a [`Service`] stands for.
pub ghost struct ServiceView {
    /// The name of the image, under which the server reaches the service
    pub image: Seq<char>,
    /// The tag of the image
    pub tag: Seq<char>,
    /// The environment variables of the container, in the order of their declaration
    pub envs: Seq<VariableView>,
    /// The condition that tells when the service has started, if there is one
    pub wait: Option<WaitForView>,
}

impl ServiceView {
    /// The image name and the tag are not empty.
    pub open spec fn valid(self) -> bool {
        &&& self.image.len() > 0
        &&& self.tag.len() > 0
    }
}

impl View for Service {
    type V = ServiceView;

    closed spec fn view(&self) -> ServiceView {
        ServiceView {
            image: self.image@,
            tag: self.tag@,
            envs: self.envs.deep_view(),
            wait: self.wait.deep_view(),
        }
    }
}

impl DeepView for Service {
    type V = ServiceView;

    open spec fn deep_view(&self) -> ServiceView {
        self@
    }
}

impl Clone for Service {
    fn clone(&self) -> (copy: Service)
        ensures
            copy@ == self@,
    {
        proof {
            use_type_invariant(self);
        }
        Service {
            image: self.image.clone(),
            tag: self.tag.clone(),
            envs: clone_variables(&self.envs),
            wait: clone_wait(&self.wait),
        }
    }
}

impl Service {
    #[verifier::type_invariant]
    spec fn well_formed(self) -> bool {
        self@.valid()
    }

    /// Start the description of a service: nothing is set yet.
    pub fn builder() -> (builder: ServiceBuilder)
        ensures
            builder@ == ServiceBuilderView::empty(),
    {
        let builder = ServiceBuilder { image: None, tag: None, envs: Vec::new(), wait: None };
        assert(builder.envs.deep_view() =~= Seq::empty());
        builder
    }

    /// The name of the service's image
    pub fn image(&self) -> (image: &String)
        ensures
            image@ == self@.image,
            self@.valid(),
    {
        proof {
            use_type_invariant(self);
        }
        &self.image
    }

    /// The tag of the service's image
    pub fn tag(&self) -> (tag: &String)
        ensures
            tag@ == self@.tag,
            self@.valid(),
    {
        proof {
            use_type_invariant(self);
        }
        &self.tag
    }

    /// The environment variables to set in the service's container
    pub fn envs(&self) -> (envs: &Vec<Variable>)
        ensures
            envs.deep_view() == self@.envs,
    {
        &self.envs
    }

    /// The condition to wait for until the service has properly started, if there is one
    pub fn wait(&self) -> (wait: &Option<WaitFor>)
        ensures
            wait.deep_view() == self@.wait,
    {
        &self.wait
    }
}

/// Collects the fields of a [`Service`].
///
/// The image and the tag are required. `env` may be called any number of times, and each call
/// adds one variable; of several calls of `wait` the last one counts.
#[derive(Debug)]
pub struct ServiceBuilder {
    image: Option<String>,
    tag: Option<String>,
    envs: Vec<Variable>,
    wait: Option<WaitFor>,
}

/// What a [`ServiceBuilder`] has collected so far.
pub ghost struct ServiceBuilderView {
    pub image: Option<Seq<char>>,
    pub tag: Option<Seq<char>>,
    pub envs: Seq<VariableView>,
    pub wait: Option<WaitForView>,
}

impl ServiceBuilderView {
    /// The builder in which nothing is set.
    pub open spec fn empty() -> ServiceBuilderView {
        ServiceBuilderView { image: None, tag: None, envs: Seq::empty(), wait: None }
    }

    /// What the builder holds after one more variable has been added: the variables that it
    /// held, and the new one after them.
    pub open spec fn env(self, name: Seq<char>, value: Seq<char>) -> ServiceBuilderView {
        ServiceBuilderView { envs: self.envs.push(VariableView { name, value }), ..self }
    }

    /// What the builder holds after the variables have been added one after the other.
    pub open spec fn envs(self, variables: Seq<VariableView>) -> ServiceBuilderView
        decreases variables.len(),
    {
        if variables.len() == 0 {
            self
        } else {
            self.envs(variables.drop_last()).env(variables.last().name, variables.last().value)
        }
    }

    /// The reason why no service can be built from what was collected, if there is one. The
    /// image is looked at before the tag.
    pub open spec fn problem(self) -> Option<ValidationError> {
        image_problem(self.image, self.tag)
    }

    /// The service that is built where there is no problem.
    pub open spec fn service(self) -> ServiceView {
        ServiceView {
            image: self.image->0,
            tag: self.tag->0,
            envs: self.envs,
            wait: self.wait,
        }
    }
}

/// Variables are kept in the order in which they were added: a builder that is given
/// variables one after the other holds the ones that it held before, then the new ones in the
/// order of the calls, and keeps everything else. The service that is built from it has exactly
/// these variables.
pub proof fn lemma_envs_in_call_order(builder: ServiceBuilderView, variables: Seq<VariableView>)
    ensures
        builder.envs(variables) == (ServiceBuilderView { envs: builder.envs + variables, ..builder }),
        builder.envs(variables).problem() == builder.problem(),
        builder.envs(variables).service().envs == builder.envs + variables,
        builder == ServiceBuilderView::empty() ==> builder.envs(variables).service().envs == variables,
    decreases variables.len(),
{
    if variables.len() == 0 {
        assert(builder.envs + variables =~= builder.envs);
    } else {
        lemma_envs_in_call_order(builder, variables.drop_last());
        assert((builder.envs + variables.drop_last()).push(variables.last()) =~= builder.envs
            + variables);
    }
    if builder == ServiceBuilderView::empty() {
        assert(builder.envs + variables =~= variables);
    }
}

impl View for ServiceBuilder {
    type V = ServiceBuilderView;

    closed spec fn view(&self) -> ServiceBuilderView {
        ServiceBuilderView {
            image: self.image.deep_view(),
            tag: self.tag.deep_view(),
            envs: self.envs.deep_view(),
            wait: self.wait.deep_view(),
        }
    }
}

impl ServiceBuilder {
    /// Set the name of the image.
    pub fn image(self, image: &str) -> (builder: ServiceBuilder)
        ensures
            builder@ == (ServiceBuilderView { image: Some(image@), ..self@ }),
    {
        ServiceBuilder { image: Some(image.to_owned()), ..self }
    }

    /// Set the tag of the image.
    pub fn tag(self, tag: &str) -> (builder: ServiceBuilder)
        ensures
            builder@ == (ServiceBuilderView { tag: Some(tag@), ..self@ }),
    {
        ServiceBuilder { tag: Some(tag.to_owned()), ..self }
    }

    /// Add an environment variable, after those that were added before.
    pub fn env(self, name: &str, value: &str) -> (builder: ServiceBuilder)
        ensures
            builder@ == self@.env(name@, value@),
    {
        let mut builder = self;
        let ghost before = builder.envs.deep_view();
        builder.envs.push(Variable::new(name, value));
        assert(builder.envs.deep_view() =~= before.push(
            VariableView { name: name@, value: value@ },
        ));
        builder
    }

    /// Set the condition to wait for, in place of one that was set before.
    pub fn wait(self, wait: WaitFor) -> (builder: ServiceBuilder)
        ensures
            builder@ == (ServiceBuilderView { wait: Some(wait@), ..self@ }),
    {
        ServiceBuilder { wait: Some(wait), ..self }
    }

    /// Build the service, or say what is wrong with the fields.
    pub fn build(self) -> (built: Result<Service, ValidationError>)
        ensures
            match built {
                Ok(service) => self@.problem() is None && service@ == self@.service()
                    && service@.valid(),
                Err(error) => self@.problem() == Some(error),
            },
    {
        let image = match self.image {
            Some(image) => image,
            None => {
                return Err(ValidationError::Missing(Field::Image));
            },
        };
        if image.as_str().unicode_len() == 0 {
            return Err(ValidationError::Invalid(Field::Image));
        }
        let tag = match self.tag {
            Some(tag) => tag,
            None => {
                return Err(ValidationError::Missing(Field::Tag));
            },
        };
        if tag.as_str().unicode_len() == 0 {
            return Err(ValidationError::Invalid(Field::Tag));
        }
        Ok(Service { image, tag, envs: self.envs, wait: self.wait })
    }
}

/// Copies a list of services, keeping their order.
pub fn clone_services(services: &Vec<Service>) -> (copy: Vec<Service>)
    ensures
        copy.deep_view() == services.deep_view(),
{
    let mut copy: Vec<Service> = Vec::new();
    let mut i: usize = 0;
    while i < services.len()
        invariant
            i <= services.len(),
            copy.len() == i,
            forall|j: int| 0 <= j < i ==> copy[j]@ == services[j]@,
        decreases services.len() - i,
    {
        copy.push(services[i].clone());
        i += 1;
    }
    assert(copy.deep_view() =~= services.deep_view());
    copy
}

} // verus!
