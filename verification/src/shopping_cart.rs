//! The shopping cart routes as a session machine.
//!
//! Every cart route holds the same conversation with the database: fetch the
//! caller's cart, create one if none exists, and only its tail differs —
//! answer the cart, probe for a line item and insert or update it, delete
//! one article, or delete them all. A [`CartSession`] records where in that
//! conversation a request stands; [`step`] consumes the database's answer
//! and says which statement to issue next, exactly as [`step_spec`] states.
//! The surrounding binary executes the SQL and feeds each outcome back in.

use vstd::prelude::*;

use crate::declaration::{ApiError, ClientId};
use crate::product::ProductId;

verus! {

pub type ShoppingCartId = String;

/// One line item of a cart: a product and the quantity ordered.
pub struct ShoppingCartArticles {
    pub product: ProductId,
    pub quantity: u64,
    pub shopping_cart_id: String,
}

/// A user's cart with its line items.
pub struct ShoppingCart {
    pub user: ClientId,
    pub id: ShoppingCartId,
    pub articles: Vec<ShoppingCartArticles>,
}

/// What the caller asked the cart routes to do.
pub enum CartRequest {
    /// Answer the cart with its articles.
    Fetch,
    /// Put one more of this product in the cart.
    AddArticle { product: ProductId },
    /// Set this product's quantity, inserting the line item if absent.
    ChangeQuantity { product: ProductId, quantity: u64 },
    /// Take this product out of the cart.
    RemoveArticle { product: ProductId },
    /// Take every article out of the cart.
    Clear,
}

/// One SQL statement the session asks the database layer to run next.
pub enum DbAction {
    /// Select the user's cart row and its articles.
    FetchCart { user: ClientId },
    /// Insert a cart row for the user under a fresh identifier.
    CreateCart { user: ClientId },
    /// Select whether the cart already holds a line item for the product.
    ProbeArticle { cart_id: ShoppingCartId, product: ProductId },
    /// Insert a line item with this quantity.
    InsertArticle { cart_id: ShoppingCartId, product: ProductId, quantity: u64 },
    /// Add this amount to an existing line item's quantity.
    IncreaseQuantity { cart_id: ShoppingCartId, product: ProductId, amount: u64 },
    /// Overwrite an existing line item's quantity.
    SetQuantity { cart_id: ShoppingCartId, product: ProductId, quantity: u64 },
    /// Delete the line item for this product.
    RemoveArticle { cart_id: ShoppingCartId, product: ProductId },
    /// Delete every line item of the cart.
    ClearArticles { cart_id: ShoppingCartId },
}

/// What the database layer reports back for the action it was handed.
pub enum DbEvent {
    /// The fetch found the user's cart.
    CartFound(ShoppingCart),
    /// The fetch succeeded and found no cart for the user.
    CartMissing,
    /// The fetch itself failed.
    FetchFailed,
    /// The cart row was inserted under this identifier.
    CartCreated { id: ShoppingCartId },
    /// The cart row could not be inserted.
    CreateFailed,
    /// Whether the probed line item exists; a failed probe reports `false`,
    /// as the routes treat any probe error as "not there yet".
    ProbeResult { exists: bool },
    /// The insert, update or delete went through.
    Executed,
    /// The insert, update or delete failed.
    ExecFailed,
}

/// Which kind of final statement is in flight; it decides the confirmation
/// and error codes of the answer.
pub enum ExecKind {
    /// Adding one to an existing line item.
    Increase,
    /// Inserting a line item with quantity one.
    InsertNew,
    /// Overwriting an existing line item's quantity.
    SetQuantity,
    /// Inserting a line item with the requested quantity.
    InsertWithQuantity,
    /// Deleting one line item.
    Remove,
    /// Deleting every line item.
    Clear,
}

/// How a finished session answers.
pub enum CartReply {
    /// The fetched cart, articles included.
    Cart(ShoppingCart),
    /// A cart was just created for the user; it is answered empty.
    Created { user: ClientId, id: ShoppingCartId },
    /// The requested change went through, under this confirmation code.
    Success { code: u16 },
    /// A database call failed, under this error code.
    Failure { code: u16 },
}

/// Where in its conversation with the database a request stands.
pub enum CartStep {
    /// The cart fetch is in flight.
    AwaitingCart,
    /// No cart existed; its creation is in flight.
    AwaitingCreation,
    /// The line-item probe for this cart is in flight.
    AwaitingProbe { cart_id: ShoppingCartId },
    /// The final insert, update or delete is in flight.
    AwaitingExecution { kind: ExecKind },
    /// The session is over and answers with this reply.
    Done(CartReply),
}

/// One cart request in flight: who asked, what was asked, and where the
/// conversation with the database stands.
pub struct CartSession {
    pub user: ClientId,
    pub request: CartRequest,
    pub step: CartStep,
}

/// The body a finished cart session answers with: the cart itself, a
/// confirmation message, or an error.
pub enum CartResponse {
    /// The cart with its articles.
    Cart(ShoppingCart),
    /// A confirmation code with its message.
    Message { code: u16, message: String },
    /// An error code with its message.
    Error(ApiError),
}

/// The confirmation message answered under each confirmation code.
pub open spec fn success_message(code: u16) -> Seq<char> {
    if code == 5100 {
        "Quantity increased"@
    } else if code == 5101 || code == 5102 {
        "Article added to the shopping cart"@
    } else if code == 5103 {
        "Article deleted from the shopping cart"@
    } else if code == 5104 {
        "Articles deleted from the shopping cart"@
    } else {
        Seq::<char>::empty()
    }
}

/// The error message answered under each error code.
pub open spec fn failure_message(code: u16) -> Seq<char> {
    if code == 5001 || code == 5004 {
        "Unable to obtain the shopping cart for this user"@
    } else if code == 5002 || code == 5003 {
        "Unable to create a new shopping cart for this user"@
    } else if code == 5005 {
        "Unable to add the article to the shopping cart"@
    } else if code == 5006 {
        "Unable to increase the quantity for the article"@
    } else if code == 5007 {
        "Unable to delete the article from the shopping cart"@
    } else if code == 5008 {
        "Unable to delete the articles from the shopping cart"@
    } else {
        Seq::<char>::empty()
    }
}

/// The text answered with a confirmation code, as [`success_message`] states.
fn success_text(code: u16) -> (m: String)
    ensures
        m@ == success_message(code),
{
    if code == 5100 {
        "Quantity increased".to_owned()
    } else if code == 5101 || code == 5102 {
        "Article added to the shopping cart".to_owned()
    } else if code == 5103 {
        "Article deleted from the shopping cart".to_owned()
    } else if code == 5104 {
        "Articles deleted from the shopping cart".to_owned()
    } else {
        String::new()
    }
}

/// The text answered with an error code, as [`failure_message`] states.
fn failure_text(code: u16) -> (m: String)
    ensures
        m@ == failure_message(code),
{
    if code == 5001 || code == 5004 {
        "Unable to obtain the shopping cart for this user".to_owned()
    } else if code == 5002 || code == 5003 {
        "Unable to create a new shopping cart for this user".to_owned()
    } else if code == 5005 {
        "Unable to add the article to the shopping cart".to_owned()
    } else if code == 5006 {
        "Unable to increase the quantity for the article".to_owned()
    } else if code == 5007 {
        "Unable to delete the article from the shopping cart".to_owned()
    } else if code == 5008 {
        "Unable to delete the articles from the shopping cart".to_owned()
    } else {
        String::new()
    }
}

/// The response body of a finished session: a fetched cart is answered
/// as-is, a freshly created one is answered empty, and a confirmation or
/// error code is answered with its message.
pub fn respond(reply: CartReply) -> (r: CartResponse)
    ensures
        reply matches CartReply::Cart(cart) ==> r == CartResponse::Cart(cart),
        reply matches CartReply::Created { user, id } ==> (r matches CartResponse::Cart(cart)
            && cart.user == user && cart.id == id && cart.articles@.len() == 0),
        reply matches CartReply::Success { code } ==> (r matches CartResponse::Message {
            code: answered,
            message,
        } && answered == code && message@ == success_message(code)),
        reply matches CartReply::Failure { code } ==> (r matches CartResponse::Error(e)
            && e.code == code && e.message@ == failure_message(code)),
{
    match reply {
        CartReply::Cart(cart) => CartResponse::Cart(cart),
        CartReply::Created { user, id } => CartResponse::Cart(
            ShoppingCart { user, id, articles: Vec::new() },
        ),
        CartReply::Success { code } => CartResponse::Message {
            code,
            message: success_text(code),
        },
        CartReply::Failure { code } => CartResponse::Error(
            ApiError { code, message: failure_text(code) },
        ),
    }
}

/// The session `s` with only its step replaced.
pub open spec fn with_step(s: CartSession, step: CartStep) -> CartSession {
    CartSession { user: s.user, request: s.request, step }
}

/// The error code when the cart fetch fails: `5001` for a plain fetch,
/// `5004` for every modifying request.
pub open spec fn fetch_failure_code(request: CartRequest) -> u16 {
    match request {
        CartRequest::Fetch => 5001u16,
        _ => 5004u16,
    }
}

/// The error code when creating the missing cart fails: `5002` for a plain
/// fetch, `5003` for every modifying request.
pub open spec fn create_failure_code(request: CartRequest) -> u16 {
    match request {
        CartRequest::Fetch => 5002u16,
        _ => 5003u16,
    }
}

/// The confirmation code of a change that went through.
pub open spec fn success_code(kind: ExecKind) -> u16 {
    match kind {
        ExecKind::Increase => 5100u16,
        ExecKind::InsertNew => 5101u16,
        ExecKind::SetQuantity => 5100u16,
        ExecKind::InsertWithQuantity => 5102u16,
        ExecKind::Remove => 5103u16,
        ExecKind::Clear => 5104u16,
    }
}

/// The error code of a change that failed.
pub open spec fn exec_failure_code(kind: ExecKind) -> u16 {
    match kind {
        ExecKind::Increase => 5006u16,
        ExecKind::InsertNew => 5005u16,
        ExecKind::SetQuantity => 5006u16,
        ExecKind::InsertWithQuantity => 5005u16,
        ExecKind::Remove => 5007u16,
        ExecKind::Clear => 5008u16,
    }
}

/// The transition taken when the fetch found the cart: a plain fetch is
/// done, a quantity change probes for the line item first, a removal or a
/// clearing goes straight to its delete.
pub open spec fn on_cart_found_spec(s: CartSession, cart: ShoppingCart) -> (CartSession, Option<
    DbAction,
>) {
    match s.request {
        CartRequest::Fetch => (with_step(s, CartStep::Done(CartReply::Cart(cart))), None),
        CartRequest::AddArticle { product } => (
            with_step(s, CartStep::AwaitingProbe { cart_id: cart.id }),
            Some(DbAction::ProbeArticle { cart_id: cart.id, product }),
        ),
        CartRequest::ChangeQuantity { product, quantity } => (
            with_step(s, CartStep::AwaitingProbe { cart_id: cart.id }),
            Some(DbAction::ProbeArticle { cart_id: cart.id, product }),
        ),
        CartRequest::RemoveArticle { product } => (
            with_step(s, CartStep::AwaitingExecution { kind: ExecKind::Remove }),
            Some(DbAction::RemoveArticle { cart_id: cart.id, product }),
        ),
        CartRequest::Clear => (
            with_step(s, CartStep::AwaitingExecution { kind: ExecKind::Clear }),
            Some(DbAction::ClearArticles { cart_id: cart.id }),
        ),
    }
}

/// The transition taken when the missing cart was created: a plain fetch
/// answers the fresh empty cart, every other request goes on against the
/// fresh cart exactly as it would against a fetched one.
pub open spec fn on_cart_created_spec(s: CartSession, id: ShoppingCartId) -> (CartSession, Option<
    DbAction,
>) {
    match s.request {
        CartRequest::Fetch => (
            with_step(s, CartStep::Done(CartReply::Created { user: s.user, id })),
            None,
        ),
        CartRequest::AddArticle { product } => (
            with_step(s, CartStep::AwaitingProbe { cart_id: id }),
            Some(DbAction::ProbeArticle { cart_id: id, product }),
        ),
        CartRequest::ChangeQuantity { product, quantity } => (
            with_step(s, CartStep::AwaitingProbe { cart_id: id }),
            Some(DbAction::ProbeArticle { cart_id: id, product }),
        ),
        CartRequest::RemoveArticle { product } => (
            with_step(s, CartStep::AwaitingExecution { kind: ExecKind::Remove }),
            Some(DbAction::RemoveArticle { cart_id: id, product }),
        ),
        CartRequest::Clear => (
            with_step(s, CartStep::AwaitingExecution { kind: ExecKind::Clear }),
            Some(DbAction::ClearArticles { cart_id: id }),
        ),
    }
}

/// The transition taken when the probe answered: an existing line item is
/// increased (adding) or overwritten (changing), a missing one is inserted
/// with quantity one (adding) or the requested quantity (changing). Probes
/// are only in flight for those two requests; for any other the event is
/// ignored.
pub open spec fn on_probe_spec(s: CartSession, cart_id: ShoppingCartId, exists: bool) -> (
    CartSession,
    Option<DbAction>,
) {
    match s.request {
        CartRequest::AddArticle { product } => if exists {
            (
                with_step(s, CartStep::AwaitingExecution { kind: ExecKind::Increase }),
                Some(DbAction::IncreaseQuantity { cart_id, product, amount: 1u64 }),
            )
        } else {
            (
                with_step(s, CartStep::AwaitingExecution { kind: ExecKind::InsertNew }),
                Some(DbAction::InsertArticle { cart_id, product, quantity: 1u64 }),
            )
        },
        CartRequest::ChangeQuantity { product, quantity } => if exists {
            (
                with_step(s, CartStep::AwaitingExecution { kind: ExecKind::SetQuantity }),
                Some(DbAction::SetQuantity { cart_id, product, quantity }),
            )
        } else {
            (
                with_step(s, CartStep::AwaitingExecution { kind: ExecKind::InsertWithQuantity }),
                Some(DbAction::InsertArticle { cart_id, product, quantity }),
            )
        },
        _ => (s, None),
    }
}

/// The whole transition relation of a cart session: which state it moves to
/// and which statement it issues for every state and database answer. An
/// answer that does not belong to the state in flight is ignored, and a
/// finished session stays finished.
pub open spec fn step_spec(s: CartSession, event: DbEvent) -> (CartSession, Option<DbAction>) {
    match s.step {
        CartStep::AwaitingCart => match event {
            DbEvent::CartFound(cart) => on_cart_found_spec(s, cart),
            DbEvent::CartMissing => (
                with_step(s, CartStep::AwaitingCreation),
                Some(DbAction::CreateCart { user: s.user }),
            ),
            DbEvent::FetchFailed => (
                with_step(
                    s,
                    CartStep::Done(CartReply::Failure { code: fetch_failure_code(s.request) }),
                ),
                None,
            ),
            _ => (s, None),
        },
        CartStep::AwaitingCreation => match event {
            DbEvent::CartCreated { id } => on_cart_created_spec(s, id),
            DbEvent::CreateFailed => (
                with_step(
                    s,
                    CartStep::Done(CartReply::Failure { code: create_failure_code(s.request) }),
                ),
                None,
            ),
            _ => (s, None),
        },
        CartStep::AwaitingProbe { cart_id } => match event {
            DbEvent::ProbeResult { exists } => on_probe_spec(s, cart_id, exists),
            _ => (s, None),
        },
        CartStep::AwaitingExecution { kind } => match event {
            DbEvent::Executed => (
                with_step(s, CartStep::Done(CartReply::Success { code: success_code(kind) })),
                None,
            ),
            DbEvent::ExecFailed => (
                with_step(
                    s,
                    CartStep::Done(CartReply::Failure { code: exec_failure_code(kind) }),
                ),
                None,
            ),
            _ => (s, None),
        },
        CartStep::Done(_) => (s, None),
    }
}

/// The session a request starts in, and the cart fetch it issues first.
pub open spec fn init_spec(user: ClientId, request: CartRequest) -> (CartSession, DbAction) {
    (
        CartSession { user, request, step: CartStep::AwaitingCart },
        DbAction::FetchCart { user },
    )
}

/// A session the machine itself can produce: a probe is only ever in
/// flight for a request that adds an article or changes a quantity.
pub open spec fn wf(s: CartSession) -> bool {
    s.step is AwaitingProbe ==> (s.request is AddArticle || s.request is ChangeQuantity)
}

/// Whether an event is an answer to the statement the session has in
/// flight. A finished session has nothing in flight.
pub open spec fn answers(step: CartStep, event: DbEvent) -> bool {
    match step {
        CartStep::AwaitingCart => event is CartFound || event is CartMissing
            || event is FetchFailed,
        CartStep::AwaitingCreation => event is CartCreated || event is CreateFailed,
        CartStep::AwaitingProbe { .. } => event is ProbeResult,
        CartStep::AwaitingExecution { .. } => event is Executed || event is ExecFailed,
        CartStep::Done(_) => false,
    }
}

/// Sessions start well formed: a fresh session awaits its cart.
pub proof fn lemma_init_wf(user: ClientId, request: CartRequest)
    ensures
        wf(init_spec(user, request).0),
{
}

/// Stepping keeps a session well formed, whatever the event.
pub proof fn lemma_step_preserves_wf(s: CartSession, event: DbEvent)
    requires
        wf(s),
    ensures
        wf(step_spec(s, event).0),
{
}

/// A well-formed session answered with what it has in flight makes
/// progress: it stops asking for statements exactly when it is done. The
/// loop that drives a session against the database ends on this.
pub proof fn lemma_session_progress(s: CartSession, event: DbEvent)
    requires
        wf(s),
        answers(s.step, event),
    ensures
        step_spec(s, event).1 is None <==> step_spec(s, event).0.step is Done,
{
}

/// Start a cart session: every request first fetches the user's cart.
pub fn init(user: ClientId, request: CartRequest) -> (r: (CartSession, DbAction))
    ensures
        r == init_spec(user, request),
{
    let fetch = DbAction::FetchCart { user: user.clone() };
    (CartSession { user, request, step: CartStep::AwaitingCart }, fetch)
}

/// Advance a session by one database answer, as [`step_spec`] states.
pub fn step(session: CartSession, event: DbEvent) -> (r: (CartSession, Option<DbAction>))
    ensures
        r == step_spec(session, event),
{
    let CartSession { user, request, step } = session;
    match step {
        CartStep::AwaitingCart => match event {
            DbEvent::CartFound(cart) => on_cart_found(CartSession { user, request, step: CartStep::AwaitingCart }, cart),
            DbEvent::CartMissing => {
                let create = DbAction::CreateCart { user: user.clone() };
                (CartSession { user, request, step: CartStep::AwaitingCreation }, Some(create))
            },
            DbEvent::FetchFailed => {
                let code: u16 = match &request {
                    CartRequest::Fetch => 5001,
                    _ => 5004,
                };
                (
                    CartSession {
                        user,
                        request,
                        step: CartStep::Done(CartReply::Failure { code }),
                    },
                    None,
                )
            },
            _ => (CartSession { user, request, step: CartStep::AwaitingCart }, None),
        },
        CartStep::AwaitingCreation => match event {
            DbEvent::CartCreated { id } => on_cart_created(
                CartSession { user, request, step: CartStep::AwaitingCreation },
                id,
            ),
            DbEvent::CreateFailed => {
                let code: u16 = match &request {
                    CartRequest::Fetch => 5002,
                    _ => 5003,
                };
                (
                    CartSession {
                        user,
                        request,
                        step: CartStep::Done(CartReply::Failure { code }),
                    },
                    None,
                )
            },
            _ => (CartSession { user, request, step: CartStep::AwaitingCreation }, None),
        },
        CartStep::AwaitingProbe { cart_id } => match event {
            DbEvent::ProbeResult { exists } => on_probe(
                CartSession {
                    user,
                    request,
                    step: CartStep::AwaitingProbe { cart_id: cart_id.clone() },
                },
                cart_id,
                exists,
            ),
            _ => (CartSession { user, request, step: CartStep::AwaitingProbe { cart_id } }, None),
        },
        CartStep::AwaitingExecution { kind } => match event {
            DbEvent::Executed => {
                let code: u16 = match kind {
                    ExecKind::Increase => 5100,
                    ExecKind::InsertNew => 5101,
                    ExecKind::SetQuantity => 5100,
                    ExecKind::InsertWithQuantity => 5102,
                    ExecKind::Remove => 5103,
                    ExecKind::Clear => 5104,
                };
                (
                    CartSession {
                        user,
                        request,
                        step: CartStep::Done(CartReply::Success { code }),
                    },
                    None,
                )
            },
            DbEvent::ExecFailed => {
                let code: u16 = match kind {
                    ExecKind::Increase => 5006,
                    ExecKind::InsertNew => 5005,
                    ExecKind::SetQuantity => 5006,
                    ExecKind::InsertWithQuantity => 5005,
                    ExecKind::Remove => 5007,
                    ExecKind::Clear => 5008,
                };
                (
                    CartSession {
                        user,
                        request,
                        step: CartStep::Done(CartReply::Failure { code }),
                    },
                    None,
                )
            },
            _ => (CartSession { user, request, step: CartStep::AwaitingExecution { kind } }, None),
        },
        CartStep::Done(reply) => (
            CartSession { user, request, step: CartStep::Done(reply) },
            None,
        ),
    }
}

/// The fetch found the cart: finish a plain fetch, or issue the probe or
/// delete the request calls for against the fetched cart's id.
fn on_cart_found(session: CartSession, cart: ShoppingCart) -> (r: (CartSession, Option<DbAction>))
    ensures
        r == on_cart_found_spec(session, cart),
{
    let CartSession { user, request, step: _ } = session;
    match request {
        CartRequest::Fetch => (
            CartSession {
                user,
                request: CartRequest::Fetch,
                step: CartStep::Done(CartReply::Cart(cart)),
            },
            None,
        ),
        CartRequest::AddArticle { product } => {
            let cart_id = cart.id;
            let probe = DbAction::ProbeArticle {
                cart_id: cart_id.clone(),
                product: product.clone(),
            };
            (
                CartSession {
                    user,
                    request: CartRequest::AddArticle { product },
                    step: CartStep::AwaitingProbe { cart_id },
                },
                Some(probe),
            )
        },
        CartRequest::ChangeQuantity { product, quantity } => {
            let cart_id = cart.id;
            let probe = DbAction::ProbeArticle {
                cart_id: cart_id.clone(),
                product: product.clone(),
            };
            (
                CartSession {
                    user,
                    request: CartRequest::ChangeQuantity { product, quantity },
                    step: CartStep::AwaitingProbe { cart_id },
                },
                Some(probe),
            )
        },
        CartRequest::RemoveArticle { product } => {
            let remove = DbAction::RemoveArticle { cart_id: cart.id, product: product.clone() };
            (
                CartSession {
                    user,
                    request: CartRequest::RemoveArticle { product },
                    step: CartStep::AwaitingExecution { kind: ExecKind::Remove },
                },
                Some(remove),
            )
        },
        CartRequest::Clear => {
            let clear = DbAction::ClearArticles { cart_id: cart.id };
            (
                CartSession {
                    user,
                    request: CartRequest::Clear,
                    step: CartStep::AwaitingExecution { kind: ExecKind::Clear },
                },
                Some(clear),
            )
        },
    }
}

/// The missing cart was created: finish a plain fetch with the fresh empty
/// cart, or go on against the fresh cart's id.
fn on_cart_created(session: CartSession, id: ShoppingCartId) -> (r: (CartSession, Option<DbAction>))
    ensures
        r == on_cart_created_spec(session, id),
{
    let CartSession { user, request, step: _ } = session;
    match request {
        CartRequest::Fetch => {
            let reply = CartReply::Created { user: user.clone(), id };
            (
                CartSession {
                    user,
                    request: CartRequest::Fetch,
                    step: CartStep::Done(reply),
                },
                None,
            )
        },
        CartRequest::AddArticle { product } => {
            let probe = DbAction::ProbeArticle { cart_id: id.clone(), product: product.clone() };
            (
                CartSession {
                    user,
                    request: CartRequest::AddArticle { product },
                    step: CartStep::AwaitingProbe { cart_id: id },
                },
                Some(probe),
            )
        },
        CartRequest::ChangeQuantity { product, quantity } => {
            let probe = DbAction::ProbeArticle { cart_id: id.clone(), product: product.clone() };
            (
                CartSession {
                    user,
                    request: CartRequest::ChangeQuantity { product, quantity },
                    step: CartStep::AwaitingProbe { cart_id: id },
                },
                Some(probe),
            )
        },
        CartRequest::RemoveArticle { product } => {
            let remove = DbAction::RemoveArticle { cart_id: id, product: product.clone() };
            (
                CartSession {
                    user,
                    request: CartRequest::RemoveArticle { product },
                    step: CartStep::AwaitingExecution { kind: ExecKind::Remove },
                },
                Some(remove),
            )
        },
        CartRequest::Clear => {
            let clear = DbAction::ClearArticles { cart_id: id };
            (
                CartSession {
                    user,
                    request: CartRequest::Clear,
                    step: CartStep::AwaitingExecution { kind: ExecKind::Clear },
                },
                Some(clear),
            )
        },
    }
}

/// The probe answered: update the existing line item, or insert the missing
/// one, as the request calls for.
fn on_probe(session: CartSession, cart_id: ShoppingCartId, exists: bool) -> (r: (
    CartSession,
    Option<DbAction>,
))
    ensures
        r == on_probe_spec(session, cart_id, exists),
{
    let CartSession { user, request, step } = session;
    match request {
        CartRequest::AddArticle { product } => {
            if exists {
                let action = DbAction::IncreaseQuantity {
                    cart_id,
                    product: product.clone(),
                    amount: 1,
                };
                (
                    CartSession {
                        user,
                        request: CartRequest::AddArticle { product },
                        step: CartStep::AwaitingExecution { kind: ExecKind::Increase },
                    },
                    Some(action),
                )
            } else {
                let action = DbAction::InsertArticle {
                    cart_id,
                    product: product.clone(),
                    quantity: 1,
                };
                (
                    CartSession {
                        user,
                        request: CartRequest::AddArticle { product },
                        step: CartStep::AwaitingExecution { kind: ExecKind::InsertNew },
                    },
                    Some(action),
                )
            }
        },
        CartRequest::ChangeQuantity { product, quantity } => {
            if exists {
                let action = DbAction::SetQuantity {
                    cart_id,
                    product: product.clone(),
                    quantity,
                };
                (
                    CartSession {
                        user,
                        request: CartRequest::ChangeQuantity { product, quantity },
                        step: CartStep::AwaitingExecution { kind: ExecKind::SetQuantity },
                    },
                    Some(action),
                )
            } else {
                let action = DbAction::InsertArticle {
                    cart_id,
                    product: product.clone(),
                    quantity,
                };
                (
                    CartSession {
                        user,
                        request: CartRequest::ChangeQuantity { product, quantity },
                        step: CartStep::AwaitingExecution { kind: ExecKind::InsertWithQuantity },
                    },
                    Some(action),
                )
            }
        },
        _ => (CartSession { user, request, step }, None),
    }
}

} // verus!
