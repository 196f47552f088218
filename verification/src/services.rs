//! Protobuf services and their handlers.

use vstd::prelude::*;
use std::sync::Arc;

use std::marker::PhantomData;

use crate::field_type::{get_shortest_item_name, shortest_item_name, ImportedItemPath};
use crate::messages::{MessageBuilder, MessageState};
use crate::options::ProtoOption;
use crate::packages::{file_imports_set, imports_after_all, lemma_file_imports_set_trans, lemma_imports_after_all_concat, Package, PackageData};
use crate::sealed::Sealed;
use crate::text::share;
use crate::{Empty, IsSet, IsUnset, SetMember, Unset};

pub mod members;

verus! {

/// A method of a service: its name, options, and the messages it receives and returns.
#[derive(Debug)]
pub struct ServiceHandler {
    pub name: Arc<String>,
    pub options: Arc<Vec<ProtoOption>>,
    pub request: Arc<ImportedItemPath>,
    pub response: Arc<ImportedItemPath>,
}

impl Clone for ServiceHandler {
    fn clone(&self) -> (r: Self)
        ensures
            r == *self,
    {
        ServiceHandler {
            name: share(&self.name),
            options: share(&self.options),
            request: share(&self.request),
            response: share(&self.response),
        }
    }
}

impl ServiceHandler {
    /// Starts describing a handler with the given name.
    pub fn new(name: &str) -> (b: ServiceHandlerBuilder)
        ensures
            b.name@ == name@,
            b.options.is_none(),
            b.request.is_none(),
            b.response.is_none(),
    {
        ServiceHandlerBuilder { name: Arc::new(String::from_str(name)), options: None, request: None, response: None }
    }

    /// Returns the name by which the request message is written in `current_file`
    /// of `current_package`.
    pub fn render_request(&self, current_file: &str, current_package: &str) -> (r: Arc<String>)
        ensures
            r@ == shortest_item_name(*self.request, current_file@, current_package@),
    {
        get_shortest_item_name(&self.request, current_file, current_package)
    }

    /// Returns the name by which the response message is written in `current_file`
    /// of `current_package`.
    pub fn render_response(&self, current_file: &str, current_package: &str) -> (r: Arc<String>)
        ensures
            r@ == shortest_item_name(*self.response, current_file@, current_package@),
    {
        get_shortest_item_name(&self.response, current_file, current_package)
    }
}

/// Collects the parts of a [`ServiceHandler`]; the request and the response must
/// be given before it is built, the options default to none.
#[derive(Debug)]
pub struct ServiceHandlerBuilder {
    pub name: Arc<String>,
    pub options: Option<Vec<ProtoOption>>,
    pub request: Option<Arc<ImportedItemPath>>,
    pub response: Option<Arc<ImportedItemPath>>,
}

impl ServiceHandlerBuilder {
    /// Whether the request and the response were given.
    pub open spec fn is_complete(&self) -> bool {
        self.request.is_some() && self.response.is_some()
    }

    /// Sets the options of this handler.
    pub fn options(self, options: Vec<ProtoOption>) -> (r: Self)
        ensures
            r == (ServiceHandlerBuilder { options: Some(options), ..self }),
    {
        ServiceHandlerBuilder { options: Some(options), ..self }
    }

    /// Sets the message that this handler receives.
    pub fn request<T: MessageState>(self, pkg: &Package, message: &MessageBuilder<T>) -> (r: Self)
        requires
            message.valid_in(pkg),
        ensures
            r == (ServiceHandlerBuilder { request: Some(message.data_in(pkg).import_path), ..self }),
    {
        ServiceHandlerBuilder { request: Some(message.get_import_path(pkg)), ..self }
    }

    /// Sets the message that this handler returns.
    pub fn response<T: MessageState>(self, pkg: &Package, message: &MessageBuilder<T>) -> (r: Self)
        requires
            message.valid_in(pkg),
        ensures
            r == (ServiceHandlerBuilder { response: Some(message.data_in(pkg).import_path), ..self }),
    {
        ServiceHandlerBuilder { response: Some(message.get_import_path(pkg)), ..self }
    }

    /// Builds the handler.
    pub fn build(self) -> (r: ServiceHandler)
        requires
            self.is_complete(),
        ensures
            r.name == self.name,
            self.options.is_some() ==> *r.options == self.options.unwrap(),
            self.options.is_none() ==> r.options@.len() == 0,
            r.request == self.request.unwrap(),
            r.response == self.response.unwrap(),
    {
        let options = match self.options {
            Some(o) => o,
            None => Vec::new(),
        };
        match (self.request, self.response) {
            (Some(request), Some(response)) => ServiceHandler { name: self.name, options: Arc::new(options), request, response },
            _ => {
                assert(false);
                ServiceHandler {
                    name: self.name,
                    options: Arc::new(options),
                    request: Arc::new(ImportedItemPath::empty()),
                    response: Arc::new(ImportedItemPath::empty()),
                }
            },
        }
    }
}

/// The file of a handler's request.
pub open spec fn request_file(h: ServiceHandler) -> Arc<String> {
    h.request.file
}

/// The file of a handler's response.
pub open spec fn response_file(h: ServiceHandler) -> Arc<String> {
    h.response.file
}

/// The files that handlers import: for each handler, the file of its request,
/// then the file of its response.
pub open spec fn imports_of_handlers(handlers: Seq<ServiceHandler>) -> Seq<Arc<String>>
    decreases handlers.len(),
{
    if handlers.len() == 0 {
        Seq::empty()
    } else {
        imports_of_handlers(handlers.drop_last()) + seq![request_file(handlers.last()), response_file(handlers.last())]
    }
}

/// The data of a protobuf service.
#[derive(Debug)]
pub struct ServiceData {
    pub name: Arc<String>,
    pub handlers: Arc<Vec<ServiceHandler>>,
    pub options: Arc<Vec<ProtoOption>>,
}

impl Clone for ServiceData {
    fn clone(&self) -> (r: Self)
        ensures
            r == *self,
    {
        ServiceData { name: share(&self.name), handlers: share(&self.handlers), options: share(&self.options) }
    }
}

/// The typestate of a [`ServiceBuilder`]: which of its members were set.
pub trait ServiceState: Sized {
    type Handlers;
    type Options;
    const SEALED: Sealed;
}

/// Implemented by the states in which every member of a service was set.
pub trait IsComplete: ServiceState {
    const SEALED: Sealed;
}

impl<S: ServiceState> IsComplete for S where S::Handlers: IsSet, S::Options: IsSet {
    const SEALED: Sealed = Sealed;
}

/// The state after the handlers were set.
pub struct SetHandlers<S: ServiceState = Empty>(PhantomData<S>);

/// The state after the options were set.
pub struct SetOptions<S: ServiceState = Empty>(PhantomData<S>);

impl ServiceState for Empty {
    type Handlers = Unset<members::handlers>;
    type Options = Unset<members::options>;
    const SEALED: Sealed = Sealed;
}

impl<S: ServiceState> ServiceState for SetHandlers<S> {
    type Handlers = SetMember<members::handlers>;
    type Options = S::Options;
    const SEALED: Sealed = Sealed;
}

impl<S: ServiceState> ServiceState for SetOptions<S> {
    type Handlers = S::Handlers;
    type Options = SetMember<members::options>;
    const SEALED: Sealed = Sealed;
}

/// The builder for a protobuf service: the index of the service in its package,
/// the index of its file, and the members already set.
#[derive(Debug)]
pub struct ServiceBuilder<S: ServiceState = Empty> {
    pub id: usize,
    pub file_id: usize,
    pub state: PhantomData<S>,
}

/// `after` is `before` with the service at `id` replaced by `data`, all else alike.
pub open spec fn service_replaced(before: PackageData, after: PackageData, id: int, data: ServiceData) -> bool {
    &&& after.name == before.name
    &&& after.files == before.files
    &&& after.messages == before.messages
    &&& after.enums == before.enums
    &&& after.services@ == before.services@.update(id, data)
}

impl<S: ServiceState> ServiceBuilder<S> {
    /// Whether this builder refers to a service, and a file, of `pkg`.
    pub open spec fn valid_in(&self, pkg: &Package) -> bool {
        &&& self.id < pkg.data.services@.len()
        &&& self.file_id < pkg.data.files@.len()
    }

    /// The data of this builder's service in `pkg`.
    pub open spec fn data_in(&self, pkg: &Package) -> ServiceData {
        pkg.data.services@[self.id as int]
    }

    /// The same service, in the next state.
    fn advance<T: ServiceState>(self) -> (r: ServiceBuilder<T>)
        ensures
            r.id == self.id,
            r.file_id == self.file_id,
    {
        ServiceBuilder { id: self.id, file_id: self.file_id, state: PhantomData }
    }

    /// Replaces the data of this builder's service.
    fn replace_data(&self, pkg: &mut Package, data: ServiceData)
        requires
            old(pkg).wf(),
            self.valid_in(old(pkg)),
        ensures
            final(pkg).wf(),
            final(pkg).path == old(pkg).path,
            service_replaced(old(pkg).data, final(pkg).data, self.id as int, data),
    {
        let ghost before = pkg.data;
        pkg.data.services.set(self.id, data);
        proof {
            assert forall|g: int| 0 <= g < pkg.data.files@.len() implies #[trigger] pkg.data.file_wf(g) by {
                assert(before.file_wf(g));
            }
            assert forall|m: int| 0 <= m < pkg.data.messages@.len() implies #[trigger] pkg.data.message_wf(m) by {
                assert(before.message_wf(m));
            }
            assert forall|e: int| 0 <= e < pkg.data.enums@.len() implies #[trigger] pkg.data.enum_wf(e) by {
                assert(before.enum_wf(e));
            }
        }
    }

    /// Returns the data of this service.
    pub fn get_data(self, pkg: &Package) -> (r: ServiceData)
        requires
            self.valid_in(pkg),
        ensures
            r == self.data_in(pkg),
    {
        pkg.data.services[self.id].clone()
    }

    /// Returns the name of the file containing this service
    pub fn get_file(&self, pkg: &Package) -> (r: Arc<String>)
        requires
            self.valid_in(pkg),
        ensures
            r == pkg.data.files@[self.file_id as int].name,
    {
        share(&pkg.data.files[self.file_id].name)
    }

    /// Returns the name of this service
    pub fn get_name(&self, pkg: &Package) -> (r: Arc<String>)
        requires
            self.valid_in(pkg),
        ensures
            r == self.data_in(pkg).name,
    {
        share(&pkg.data.services[self.id].name)
    }

    /// Returns the name of the package containing this service
    pub fn get_package(&self, pkg: &Package) -> (r: Arc<String>)
        ensures
            r == pkg.data.name,
    {
        share(&pkg.data.name)
    }

    /// Sets the handlers of this service; the file of each request and response is
    /// offered to the service's file as an import.
    pub fn handlers(self, pkg: &mut Package, handlers: Vec<ServiceHandler>) -> (r: ServiceBuilder<SetHandlers<S>>)
        where
            S::Handlers: IsUnset,
        requires
            old(pkg).wf(),
            self.valid_in(old(pkg)),
        ensures
            final(pkg).wf(),
            r.id == self.id,
            r.file_id == self.file_id,
            final(pkg).path == old(pkg).path,
            final(pkg).data.services@ == old(pkg).data.services@.update(
                self.id as int,
                ServiceData { handlers: Arc::new(handlers), ..self.data_in(old(pkg)) },
            ),
            final(pkg).data.name == old(pkg).data.name,
            final(pkg).data.messages == old(pkg).data.messages,
            final(pkg).data.enums == old(pkg).data.enums,
            crate::packages::files_with_imports(old(pkg).data.files@, final(pkg).data.files@, self.file_id as int,
                imports_after_all(
                    old(pkg).data.files@[self.file_id as int].imports@,
                    old(pkg).data.files@[self.file_id as int].name@,
                    imports_of_handlers(handlers@),
                )),
    {
        let ghost before = pkg.data;
        let ghost path0 = pkg.path;
        let ghost start = before.files@[self.file_id as int].imports@;
        let ghost file_name = before.files@[self.file_id as int].name@;
        let mut i: usize = 0;
        while i < handlers.len()
            invariant
                i <= handlers@.len(),
                pkg.path == path0,
                pkg.wf(),
                self.valid_in(pkg),
                self.file_id < before.files@.len(),
                start == before.files@[self.file_id as int].imports@,
                file_name == before.files@[self.file_id as int].name@,
                file_imports_set(before, pkg.data, self.file_id as int,
                    imports_after_all(start, file_name, imports_of_handlers(handlers@.take(i as int)))),
            decreases handlers@.len() - i,
        {
            let h = &handlers[i];
            let ghost hd: ServiceHandler = handlers@[i as int];
            let ghost prior = imports_after_all(start, file_name, imports_of_handlers(handlers@.take(i as int)));
            let ghost mid = pkg.data;
            pkg.data.add_file_import(self.file_id, &h.request.file);
            let ghost mid2 = pkg.data;
            pkg.data.add_file_import(self.file_id, &h.response.file);
            proof {
                let pair = seq![request_file(hd), response_file(hd)];
                lemma_file_imports_set_trans(before, mid, mid2, self.file_id as int, prior,
                    crate::files::imports_after(prior, file_name, request_file(hd)));
                lemma_file_imports_set_trans(before, mid2, pkg.data, self.file_id as int,
                    crate::files::imports_after(prior, file_name, request_file(hd)),
                    crate::files::imports_after(crate::files::imports_after(prior, file_name, request_file(hd)), file_name, response_file(hd)));
                assert(pair.drop_last() =~= seq![request_file(hd)]);
                assert(seq![request_file(hd)].drop_last() =~= Seq::<Arc<String>>::empty());
                let one = seq![request_file(hd)];
                assert(one.len() == 1);
                assert(one.last() == request_file(hd));
                assert(one.drop_last() =~= Seq::<Arc<String>>::empty());
                assert(imports_after_all(prior, file_name, one.drop_last()) == prior);
                assert(pair.last() == response_file(hd));
                assert(imports_after_all(prior, file_name, seq![request_file(hd)]) == crate::files::imports_after(prior, file_name, request_file(hd)));
                assert(imports_after_all(prior, file_name, pair)
                    == crate::files::imports_after(crate::files::imports_after(prior, file_name, request_file(hd)), file_name, response_file(hd)));
                lemma_imports_after_all_concat(start, file_name, imports_of_handlers(handlers@.take(i as int)), pair);
                assert(handlers@.take(i + 1).drop_last() =~= handlers@.take(i as int));
                assert(handlers@.take(i + 1).last() == hd);
            }
            i = i + 1;
        }
        proof {
            assert(handlers@.take(i as int) =~= handlers@);
        }
        let ghost mid = pkg.data;
        let old_data = pkg.data.services[self.id].clone();
        let data = ServiceData { handlers: Arc::new(handlers), ..old_data };
        self.replace_data(pkg, data);
        self.advance()
    }

    /// Sets the options of this service.
    pub fn options(self, pkg: &mut Package, options: Vec<ProtoOption>) -> (r: ServiceBuilder<SetOptions<S>>)
        where
            S::Options: IsUnset,
        requires
            old(pkg).wf(),
            self.valid_in(old(pkg)),
        ensures
            final(pkg).wf(),
            r.id == self.id,
            r.file_id == self.file_id,
            final(pkg).path == old(pkg).path,
            service_replaced(old(pkg).data, final(pkg).data, self.id as int,
                ServiceData { options: Arc::new(options), ..self.data_in(old(pkg)) }),
    {
        let old_data = pkg.data.services[self.id].clone();
        let data = ServiceData { options: Arc::new(options), ..old_data };
        self.replace_data(pkg, data);
        self.advance()
    }
}

} // verus!
