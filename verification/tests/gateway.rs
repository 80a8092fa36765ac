use token_gateway::gateway::{
    conclude_name_lookup, conclude_secret_lookup, describe_by_name, describe_by_secret,
    ApiResponse, GatewayFault, StorageFault,
};
use token_gateway::model::{Identity, RequestBody, ResponseBody, TokenRecord};
use token_gateway::store::TokenStore;

fn alice() -> Identity {
    Identity { author_id: 1 }
}

fn bob() -> Identity {
    Identity { author_id: 2 }
}

/// Alice owns `ci`; Bob owns `deploy`; Carol also owns a token named `ci`
/// (names are unique per owner, not globally).
fn sample_store() -> TokenStore {
    TokenStore {
        records: vec![
            TokenRecord {
                name: "ci".to_string(),
                secret: "sk_abc".to_string(),
                owner_id: 1,
                expires_at: None,
            },
            TokenRecord {
                name: "deploy".to_string(),
                secret: "sk_xyz".to_string(),
                owner_id: 2,
                expires_at: Some("2027-01-01T00:00:00Z".to_string()),
            },
            TokenRecord {
                name: "ci".to_string(),
                secret: "sk_carol".to_string(),
                owner_id: 3,
                expires_at: None,
            },
        ],
    }
}

#[test]
fn owner_describes_token_by_name() {
    let store = sample_store();
    let response = describe_by_name(Some(&alice()), &store, &"ci".to_string());
    assert_eq!(response.status(), 200);
    match response {
        ApiResponse::Success(body) => {
            assert_eq!(body.name, "ci");
            assert_eq!(body.expires_at, None);
        }
        other => panic!("expected a success, got {:?}", other),
    }
}

#[test]
fn missing_name_is_not_found() {
    let store = sample_store();
    let response = describe_by_name(Some(&alice()), &store, &"missing".to_string());
    assert_eq!(response.status(), 404);
    assert_eq!(
        response,
        ApiResponse::NotFound("no token was found for the supplied name".to_string())
    );
}

#[test]
fn anonymous_name_lookup_is_unauthorized() {
    let store = sample_store();
    let response = describe_by_name(None, &store, &"ci".to_string());
    assert_eq!(response.status(), 401);
    assert_eq!(
        response,
        ApiResponse::Unauthorized(
            "please log in first to access token information".to_string()
        )
    );
}

#[test]
fn foreign_secret_is_forbidden() {
    // Bob presents Alice's exact secret: never the payload, always 403.
    let store = sample_store();
    let body = RequestBody {
        token: "sk_abc".to_string(),
    };
    let response = describe_by_secret(Some(&bob()), &store, Some(body)).unwrap();
    assert_eq!(response.status(), 403);
    assert_eq!(
        response,
        ApiResponse::Forbidden("unauthorized access to this token".to_string())
    );
}

#[test]
fn owner_describes_token_by_secret() {
    let store = sample_store();
    let body = RequestBody {
        token: "sk_abc".to_string(),
    };
    let response = describe_by_secret(Some(&alice()), &store, Some(body)).unwrap();
    assert_eq!(response.status(), 200);
    match response {
        ApiResponse::Success(body) => {
            assert_eq!(body.name, "ci");
            assert_eq!(body.expires_at, None);
        }
        other => panic!("expected a success, got {:?}", other),
    }
}

#[test]
fn malformed_body_is_a_fault_not_a_rejection() {
    // A body that failed to parse is propagated, never answered 403 or 404.
    let store = sample_store();
    let result = describe_by_secret(Some(&alice()), &store, None);
    assert_eq!(result, Err(GatewayFault::MalformedBody));
}

#[test]
fn anonymous_caller_is_rejected_before_the_body_is_read() {
    // Identity is checked first: anonymous plus malformed body is still 401.
    let store = sample_store();
    let result = describe_by_secret(None, &store, None);
    assert_eq!(
        result,
        Ok(ApiResponse::Unauthorized(
            "please log in first to access token information".to_string()
        ))
    );
}

#[test]
fn foreign_name_is_not_found() {
    // Bob supplies Alice's exact token name but owns no token of that name.
    let store = sample_store();
    let response = describe_by_name(Some(&bob()), &store, &"ci".to_string());
    assert_eq!(response.status(), 404);
    assert_eq!(
        response,
        ApiResponse::NotFound("no token was found for the supplied name".to_string())
    );
}

#[test]
fn anonymous_rejection_does_not_depend_on_the_store() {
    let empty = TokenStore { records: vec![] };
    let full = sample_store();
    let name = "ci".to_string();
    assert_eq!(
        describe_by_name(None, &empty, &name),
        describe_by_name(None, &full, &name)
    );
}

#[test]
fn repeated_lookups_yield_identical_responses() {
    let store = sample_store();
    let name = "ci".to_string();
    let first = describe_by_name(Some(&alice()), &store, &name);
    let second = describe_by_name(Some(&alice()), &store, &name);
    assert_eq!(first, second);

    let body = || {
        Some(RequestBody {
            token: "sk_abc".to_string(),
        })
    };
    let first = describe_by_secret(Some(&alice()), &store, body());
    let second = describe_by_secret(Some(&alice()), &store, body());
    assert_eq!(first, second);
}

#[test]
fn success_bodies_hold_nothing_but_name_and_absent_expiration() {
    let store = sample_store();
    // Bob's record carries an expiration, yet the response never surfaces it,
    // and the body has no field that could carry the secret.
    let response = describe_by_name(Some(&bob()), &store, &"deploy".to_string());
    match response {
        ApiResponse::Success(body) => {
            let ResponseBody { name, expires_at } = body;
            assert_eq!(name, "deploy");
            assert_eq!(expires_at, None);
        }
        other => panic!("expected a success, got {:?}", other),
    }
}

#[test]
fn two_owners_may_share_a_token_name() {
    let store = sample_store();
    let carol = Identity { author_id: 3 };
    let own = describe_by_name(Some(&carol), &store, &"ci".to_string());
    assert_eq!(own.status(), 200);
    // Carol reaches her own `ci`, not Alice's: her secret resolves, Alice's
    // does not.
    let own_secret = RequestBody {
        token: "sk_carol".to_string(),
    };
    assert_eq!(
        describe_by_secret(Some(&carol), &store, Some(own_secret))
            .unwrap()
            .status(),
        200
    );
    let alice_secret = RequestBody {
        token: "sk_abc".to_string(),
    };
    assert_eq!(
        describe_by_secret(Some(&carol), &store, Some(alice_secret))
            .unwrap()
            .status(),
        403
    );
}

#[test]
fn storage_faults_are_propagated_never_converted() {
    let fault = || StorageFault {
        message: "connection refused".to_string(),
    };
    assert_eq!(
        conclude_name_lookup(Err(fault())),
        Err(GatewayFault::Storage(fault()))
    );
    assert_eq!(
        conclude_secret_lookup(Err(fault())),
        Err(GatewayFault::Storage(fault()))
    );
}

#[test]
fn concluded_lookups_keep_the_asymmetric_miss_codes() {
    assert_eq!(
        conclude_name_lookup(Ok(None)),
        Ok(ApiResponse::NotFound(
            "no token was found for the supplied name".to_string()
        ))
    );
    assert_eq!(
        conclude_secret_lookup(Ok(None)),
        Ok(ApiResponse::Forbidden(
            "unauthorized access to this token".to_string()
        ))
    );
    let record = TokenRecord {
        name: "ci".to_string(),
        secret: "sk_abc".to_string(),
        owner_id: 1,
        expires_at: None,
    };
    let concluded = conclude_name_lookup(Ok(Some(&record))).unwrap();
    match concluded {
        ApiResponse::Success(body) => {
            assert_eq!(body.name, "ci");
            assert_eq!(body.expires_at, None);
        }
        other => panic!("expected a success, got {:?}", other),
    }
}

#[test]
fn status_codes_follow_the_reply_kind() {
    assert_eq!(
        ApiResponse::Success(ResponseBody {
            name: "ci".to_string(),
            expires_at: None,
        })
        .status(),
        200
    );
    assert_eq!(ApiResponse::Unauthorized("m".to_string()).status(), 401);
    assert_eq!(ApiResponse::Forbidden("m".to_string()).status(), 403);
    assert_eq!(ApiResponse::NotFound("m".to_string()).status(), 404);
}
