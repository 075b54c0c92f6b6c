use shop_api::shopping_cart::{
    init, respond, step, CartReply, CartRequest, CartResponse, CartSession, CartStep, DbAction,
    DbEvent, ShoppingCart, ShoppingCartArticles,
};

const USER: &str = "test-user";

fn fetched_cart(id: &str) -> ShoppingCart {
    ShoppingCart {
        user: USER.to_string(),
        id: id.to_string(),
        articles: vec![ShoppingCartArticles {
            product: "p-1".to_string(),
            quantity: 2,
            shopping_cart_id: id.to_string(),
        }],
    }
}

fn finish(session: CartSession) -> CartReply {
    match session.step {
        CartStep::Done(reply) => reply,
        _ => panic!("the session should be finished"),
    }
}

#[test]
fn every_request_starts_with_a_fetch() {
    let (session, action) = init(USER.to_string(), CartRequest::Fetch);
    assert!(matches!(action, DbAction::FetchCart { ref user } if user == USER));
    assert!(matches!(session.step, CartStep::AwaitingCart));
}

#[test]
fn fetch_answers_the_found_cart() {
    let (session, _) = init(USER.to_string(), CartRequest::Fetch);
    let (session, action) = step(session, DbEvent::CartFound(fetched_cart("c-1")));
    assert!(action.is_none());
    match finish(session) {
        CartReply::Cart(cart) => {
            assert_eq!(cart.id, "c-1");
            assert_eq!(cart.articles.len(), 1);
        }
        _ => panic!("a found cart is answered as-is"),
    }
}

#[test]
fn fetch_creates_a_missing_cart_and_answers_it_empty() {
    let (session, _) = init(USER.to_string(), CartRequest::Fetch);
    let (session, action) = step(session, DbEvent::CartMissing);
    assert!(matches!(action, Some(DbAction::CreateCart { ref user }) if user == USER));
    let (session, action) = step(session, DbEvent::CartCreated { id: "c-new".to_string() });
    assert!(action.is_none());
    let reply = finish(session);
    match respond(reply) {
        CartResponse::Cart(cart) => {
            assert_eq!(cart.user, USER);
            assert_eq!(cart.id, "c-new");
            assert!(cart.articles.is_empty());
        }
        _ => panic!("a created cart is answered empty"),
    }
}

#[test]
fn failed_fetch_of_the_cart_is_5001() {
    let (session, _) = init(USER.to_string(), CartRequest::Fetch);
    let (session, action) = step(session, DbEvent::FetchFailed);
    assert!(action.is_none());
    match respond(finish(session)) {
        CartResponse::Error(e) => {
            assert_eq!(e.code, 5001);
            assert_eq!(e.message, "Unable to obtain the shopping cart for this user");
        }
        _ => panic!("a failed fetch is answered with the error body"),
    }
}

#[test]
fn failed_creation_on_fetch_is_5002() {
    let (session, _) = init(USER.to_string(), CartRequest::Fetch);
    let (session, _) = step(session, DbEvent::CartMissing);
    let (session, _) = step(session, DbEvent::CreateFailed);
    match respond(finish(session)) {
        CartResponse::Error(e) => {
            assert_eq!(e.code, 5002);
            assert_eq!(e.message, "Unable to create a new shopping cart for this user");
        }
        _ => panic!("a failed creation is answered with the error body"),
    }
}

#[test]
fn adding_an_existing_article_increments_it() {
    let request = CartRequest::AddArticle { product: "p-1".to_string() };
    let (session, _) = init(USER.to_string(), request);
    let (session, action) = step(session, DbEvent::CartFound(fetched_cart("c-1")));
    assert!(matches!(
        action,
        Some(DbAction::ProbeArticle { ref cart_id, ref product })
            if cart_id == "c-1" && product == "p-1"
    ));
    let (session, action) = step(session, DbEvent::ProbeResult { exists: true });
    assert!(matches!(
        action,
        Some(DbAction::IncreaseQuantity { ref cart_id, ref product, amount: 1 })
            if cart_id == "c-1" && product == "p-1"
    ));
    let (session, action) = step(session, DbEvent::Executed);
    assert!(action.is_none());
    match respond(finish(session)) {
        CartResponse::Message { code, message } => {
            assert_eq!(code, 5100);
            assert_eq!(message, "Quantity increased");
        }
        _ => panic!("an increment is confirmed with a message"),
    }
}

#[test]
fn adding_a_new_article_inserts_quantity_one() {
    let request = CartRequest::AddArticle { product: "p-9".to_string() };
    let (session, _) = init(USER.to_string(), request);
    let (session, _) = step(session, DbEvent::CartFound(fetched_cart("c-1")));
    let (session, action) = step(session, DbEvent::ProbeResult { exists: false });
    assert!(matches!(
        action,
        Some(DbAction::InsertArticle { ref cart_id, ref product, quantity: 1 })
            if cart_id == "c-1" && product == "p-9"
    ));
    let (session, _) = step(session, DbEvent::Executed);
    match respond(finish(session)) {
        CartResponse::Message { code, message } => {
            assert_eq!(code, 5101);
            assert_eq!(message, "Article added to the shopping cart");
        }
        _ => panic!("an insert is confirmed with a message"),
    }
}

#[test]
fn adding_probes_the_freshly_created_cart() {
    let request = CartRequest::AddArticle { product: "p-1".to_string() };
    let (session, _) = init(USER.to_string(), request);
    let (session, action) = step(session, DbEvent::CartMissing);
    assert!(matches!(action, Some(DbAction::CreateCart { .. })));
    let (session, action) = step(session, DbEvent::CartCreated { id: "c-new".to_string() });
    assert!(matches!(
        action,
        Some(DbAction::ProbeArticle { ref cart_id, ref product })
            if cart_id == "c-new" && product == "p-1"
    ));
    let (_, action) = step(session, DbEvent::ProbeResult { exists: false });
    assert!(matches!(
        action,
        Some(DbAction::InsertArticle { ref cart_id, quantity: 1, .. }) if cart_id == "c-new"
    ));
}

#[test]
fn failed_fetch_on_a_change_is_5004() {
    let request = CartRequest::AddArticle { product: "p-1".to_string() };
    let (session, _) = init(USER.to_string(), request);
    let (session, _) = step(session, DbEvent::FetchFailed);
    match respond(finish(session)) {
        CartResponse::Error(e) => {
            assert_eq!(e.code, 5004);
            assert_eq!(e.message, "Unable to obtain the shopping cart for this user");
        }
        _ => panic!("a failed fetch is answered with the error body"),
    }
}

#[test]
fn failed_creation_on_a_change_is_5003() {
    let request = CartRequest::Clear;
    let (session, _) = init(USER.to_string(), request);
    let (session, _) = step(session, DbEvent::CartMissing);
    let (session, _) = step(session, DbEvent::CreateFailed);
    match respond(finish(session)) {
        CartResponse::Error(e) => {
            assert_eq!(e.code, 5003);
            assert_eq!(e.message, "Unable to create a new shopping cart for this user");
        }
        _ => panic!("a failed creation is answered with the error body"),
    }
}

#[test]
fn failed_increment_is_5006() {
    let request = CartRequest::AddArticle { product: "p-1".to_string() };
    let (session, _) = init(USER.to_string(), request);
    let (session, _) = step(session, DbEvent::CartFound(fetched_cart("c-1")));
    let (session, _) = step(session, DbEvent::ProbeResult { exists: true });
    let (session, _) = step(session, DbEvent::ExecFailed);
    match respond(finish(session)) {
        CartResponse::Error(e) => {
            assert_eq!(e.code, 5006);
            assert_eq!(e.message, "Unable to increase the quantity for the article");
        }
        _ => panic!("a failed increment is answered with the error body"),
    }
}

#[test]
fn failed_insert_is_5005() {
    let request = CartRequest::AddArticle { product: "p-1".to_string() };
    let (session, _) = init(USER.to_string(), request);
    let (session, _) = step(session, DbEvent::CartFound(fetched_cart("c-1")));
    let (session, _) = step(session, DbEvent::ProbeResult { exists: false });
    let (session, _) = step(session, DbEvent::ExecFailed);
    match respond(finish(session)) {
        CartResponse::Error(e) => {
            assert_eq!(e.code, 5005);
            assert_eq!(e.message, "Unable to add the article to the shopping cart");
        }
        _ => panic!("a failed insert is answered with the error body"),
    }
}

#[test]
fn changing_an_existing_quantity_overwrites_it() {
    let request = CartRequest::ChangeQuantity { product: "p-1".to_string(), quantity: 7 };
    let (session, _) = init(USER.to_string(), request);
    let (session, _) = step(session, DbEvent::CartFound(fetched_cart("c-1")));
    let (session, action) = step(session, DbEvent::ProbeResult { exists: true });
    assert!(matches!(
        action,
        Some(DbAction::SetQuantity { ref cart_id, ref product, quantity: 7 })
            if cart_id == "c-1" && product == "p-1"
    ));
    let (session, _) = step(session, DbEvent::Executed);
    match respond(finish(session)) {
        CartResponse::Message { code, message } => {
            assert_eq!(code, 5100);
            assert_eq!(message, "Quantity increased");
        }
        _ => panic!("an overwrite is confirmed with a message"),
    }
}

#[test]
fn changing_a_missing_article_inserts_the_quantity() {
    let request = CartRequest::ChangeQuantity { product: "p-9".to_string(), quantity: 3 };
    let (session, _) = init(USER.to_string(), request);
    let (session, _) = step(session, DbEvent::CartFound(fetched_cart("c-1")));
    let (session, action) = step(session, DbEvent::ProbeResult { exists: false });
    assert!(matches!(
        action,
        Some(DbAction::InsertArticle { ref cart_id, ref product, quantity: 3 })
            if cart_id == "c-1" && product == "p-9"
    ));
    let (session, _) = step(session, DbEvent::Executed);
    match respond(finish(session)) {
        CartResponse::Message { code, message } => {
            assert_eq!(code, 5102);
            assert_eq!(message, "Article added to the shopping cart");
        }
        _ => panic!("an insert is confirmed with a message"),
    }
}

#[test]
fn removing_an_article_is_5103() {
    let request = CartRequest::RemoveArticle { product: "p-1".to_string() };
    let (session, _) = init(USER.to_string(), request);
    let (session, action) = step(session, DbEvent::CartFound(fetched_cart("c-1")));
    assert!(matches!(
        action,
        Some(DbAction::RemoveArticle { ref cart_id, ref product })
            if cart_id == "c-1" && product == "p-1"
    ));
    let (session, _) = step(session, DbEvent::Executed);
    match respond(finish(session)) {
        CartResponse::Message { code, message } => {
            assert_eq!(code, 5103);
            assert_eq!(message, "Article deleted from the shopping cart");
        }
        _ => panic!("a removal is confirmed with a message"),
    }
}

#[test]
fn failed_removal_is_5007() {
    let request = CartRequest::RemoveArticle { product: "p-1".to_string() };
    let (session, _) = init(USER.to_string(), request);
    let (session, _) = step(session, DbEvent::CartFound(fetched_cart("c-1")));
    let (session, _) = step(session, DbEvent::ExecFailed);
    match respond(finish(session)) {
        CartResponse::Error(e) => {
            assert_eq!(e.code, 5007);
            assert_eq!(e.message, "Unable to delete the article from the shopping cart");
        }
        _ => panic!("a failed removal is answered with the error body"),
    }
}

#[test]
fn clearing_the_cart_is_5104() {
    let (session, _) = init(USER.to_string(), CartRequest::Clear);
    let (session, action) = step(session, DbEvent::CartFound(fetched_cart("c-1")));
    assert!(matches!(
        action,
        Some(DbAction::ClearArticles { ref cart_id }) if cart_id == "c-1"
    ));
    let (session, _) = step(session, DbEvent::Executed);
    match respond(finish(session)) {
        CartResponse::Message { code, message } => {
            assert_eq!(code, 5104);
            assert_eq!(message, "Articles deleted from the shopping cart");
        }
        _ => panic!("a clearing is confirmed with a message"),
    }
}

#[test]
fn failed_clearing_is_5008() {
    let (session, _) = init(USER.to_string(), CartRequest::Clear);
    let (session, _) = step(session, DbEvent::CartFound(fetched_cart("c-1")));
    let (session, _) = step(session, DbEvent::ExecFailed);
    match respond(finish(session)) {
        CartResponse::Error(e) => {
            assert_eq!(e.code, 5008);
            assert_eq!(e.message, "Unable to delete the articles from the shopping cart");
        }
        _ => panic!("a failed clearing is answered with the error body"),
    }
}

#[test]
fn a_finished_session_ignores_further_events() {
    let (session, _) = init(USER.to_string(), CartRequest::Fetch);
    let (session, _) = step(session, DbEvent::FetchFailed);
    let (session, action) = step(session, DbEvent::Executed);
    assert!(action.is_none());
    assert!(matches!(session.step, CartStep::Done(CartReply::Failure { code: 5001 })));
}
