use proxy_api::error;
use proxy_api::http::error::{
    classify, recover_checkout, recover_failure, recover_keystore, recover_routing,
    recover_source, recover_state, recover_validation, Classification, Rejection, Routing,
    Variant, BAD_REQUEST, CONFLICT, FORBIDDEN, INTERNAL_SERVER_ERROR, NOT_FOUND, UNAUTHORIZED,
};
use proxy_api::keystore;
use proxy_api::source;
use proxy_api::state;

fn classified(status: u16, variant: Variant, message: &str) -> Classification {
    Classification { status, variant, message: String::from(message) }
}

fn text(description: &str) -> String {
    String::from(description)
}

fn all_variants() -> Vec<Variant> {
    vec![
        Variant::EmptyPath,
        Variant::Forbidden,
        Variant::GitError,
        Variant::IdentityExists,
        Variant::IncorrectPassphrase,
        Variant::InternalError,
        Variant::InternalServerError,
        Variant::InvalidQuery,
        Variant::IoError,
        Variant::KeyExists,
        Variant::MissingAuthorEmail,
        Variant::MissingAuthorName,
        Variant::MissingDefaultBranch,
        Variant::MissingGitConfig,
        Variant::MissingRemote,
        Variant::MissingUrl,
        Variant::NotARepo,
        Variant::NotFound,
        Variant::PathDoesNotExist,
        Variant::PathExists,
        Variant::PrefixError,
        Variant::QueryMissing,
        Variant::SessionInUse,
        Variant::TransportError,
        Variant::Unauthorized,
        Variant::UrlMismatch,
    ]
}

fn sample_of_rejections() -> Vec<Rejection> {
    let d = || text("d");
    let failures = vec![
        error::Error::Keystore(keystore::Error::new(true, false, d())),
        error::Error::Keystore(keystore::Error::new(false, true, d())),
        error::Error::Keystore(keystore::Error::new(true, true, d())),
        error::Error::Keystore(keystore::Error::new(false, false, d())),
        error::Error::State(state::Error::Checkout(state::Checkout::AlreadyExists {
            description: d(),
        })),
        error::Error::State(state::Error::Checkout(state::Checkout::Git { message: d() })),
        error::Error::State(state::Error::Checkout(state::Checkout::Include {
            description: d(),
        })),
        error::Error::State(state::Error::Checkout(state::Checkout::Io { description: d() })),
        error::Error::State(state::Error::Checkout(state::Checkout::Transport {
            description: d(),
        })),
        error::Error::State(state::Error::Checkout(state::Checkout::Prefix {
            description: d(),
        })),
        error::Error::State(state::Error::Create(state::Create::Validation(
            state::Validation::PathDoesNotExist { description: d() },
        ))),
        error::Error::State(state::Error::Create(state::Create::Validation(
            state::Validation::Remote { description: d() },
        ))),
        error::Error::State(state::Error::Create(state::Create::Other { description: d() })),
        error::Error::State(state::Error::Git { debug: d() }),
        error::Error::State(state::Error::MissingOwner { description: d() }),
        error::Error::State(state::Error::Storage(state::Storage::Blob(state::Blob::NotFound))),
        error::Error::State(state::Error::Storage(state::Storage::Blob(state::Blob::Other {
            description: d(),
        }))),
        error::Error::State(state::Error::Storage(state::Storage::Other { description: d() })),
        error::Error::State(state::Error::IdentityExists { description: d() }),
        error::Error::State(state::Error::Other { description: d() }),
        error::Error::Source(source::Error::Git { description: d() }),
        error::Error::Source(source::Error::NoBranches),
        error::Error::Source(source::Error::PathNotFound { path: d() }),
        error::Error::Source(source::Error::Other { description: d() }),
        error::Error::Peer(d()),
        error::Error::Io(d()),
        error::Error::SessionInUse(d()),
        error::Error::Store(d()),
        error::Error::KeystoreSealed,
        error::Error::InvalidAuthCookie,
        error::Error::WaitingRoom(d()),
        error::Error::ProjectNotFound,
        error::Error::MissingDefaultBranch,
    ];
    let routings = vec![
        Routing::NoSession,
        Routing::InvalidQuery { query: d(), error: d() },
        Routing::QueryMissing,
    ];

    let mut rejections = vec![
        Rejection { not_found: true, routing: None, failure: None },
        Rejection { not_found: false, routing: None, failure: None },
    ];
    for routing in &routings {
        rejections.push(Rejection {
            not_found: false,
            routing: Some(routing.clone()),
            failure: None,
        });
    }
    for failure in &failures {
        rejections.push(Rejection {
            not_found: false,
            routing: None,
            failure: Some(failure.clone()),
        });
        rejections.push(Rejection {
            not_found: true,
            routing: Some(Routing::NoSession),
            failure: Some(failure.clone()),
        });
    }
    rejections
}

#[test]
fn every_rejection_gets_a_failure_status_and_a_variant() {
    for rejection in sample_of_rejections() {
        let have = classify(&rejection);

        assert!(matches!(have.status, 400 | 401 | 403 | 404 | 409 | 500));
        assert!(!have.variant.as_str().is_empty());
    }
}

#[test]
fn status_constants_are_the_http_codes() {
    assert_eq!(BAD_REQUEST, 400);
    assert_eq!(UNAUTHORIZED, 401);
    assert_eq!(FORBIDDEN, 403);
    assert_eq!(NOT_FOUND, 404);
    assert_eq!(CONFLICT, 409);
    assert_eq!(INTERNAL_SERVER_ERROR, 500);
}

#[test]
fn variants_have_their_published_codes() {
    let codes: Vec<&str> = all_variants().iter().map(|variant| variant.as_str()).collect();

    assert_eq!(
        codes,
        vec![
            "EMPTY_PATH",
            "FORBIDDEN",
            "GIT_ERROR",
            "IDENTITY_EXISTS",
            "INCORRECT_PASSPHRASE",
            "INTERNAL_ERROR",
            "INTERNAL_SERVER_ERROR",
            "INVALID_QUERY",
            "IO_ERROR",
            "KEY_EXISTS",
            "MISSING_AUTHOR_EMAIL",
            "MISSING_AUTHOR_NAME",
            "MISSING_DEFAULT_BRANCH",
            "MISSING_GIT_CONFIG",
            "MISSING_REMOTE",
            "MISSING_URL",
            "NOT_A_REPO",
            "NOT_FOUND",
            "PATH_DOES_NOT_EXIST",
            "PATH_EXISTS",
            "PREFIX_ERROR",
            "QUERY_MISSING",
            "SESSION_IN_USE",
            "TRANSPORT_ERROR",
            "UNAUTHORIZED",
            "URL_MISMATCH",
        ]
    );
}

#[test]
fn variant_codes_differ() {
    let variants = all_variants();

    for (i, one) in variants.iter().enumerate() {
        for other in &variants[i + 1..] {
            assert_ne!(one.as_str(), other.as_str());
        }
    }
}

#[test]
fn routing_failures_describe_themselves() {
    assert_eq!(Routing::NoSession.to_string(), "no session has been created yet");
    assert_eq!(
        Routing::InvalidQuery { query: text("revision"), error: text("missing value") }
            .to_string(),
        "invalid query string \"revision\": missing value"
    );
    assert_eq!(
        Routing::InvalidQuery { query: text(""), error: text("") }.to_string(),
        "invalid query string \"\": "
    );
    assert_eq!(Routing::QueryMissing.to_string(), "required query string is missing");
}

#[test]
fn routing_table() {
    assert_eq!(
        recover_routing(&Routing::NoSession),
        classified(404, Variant::NotFound, "no session has been created yet")
    );
    assert_eq!(
        recover_routing(&Routing::InvalidQuery {
            query: text("foo=bar&baz"),
            error: text("unexpected token"),
        }),
        classified(
            400,
            Variant::InvalidQuery,
            "invalid query string \"foo=bar&baz\": unexpected token"
        )
    );
    assert_eq!(
        recover_routing(&Routing::QueryMissing),
        classified(400, Variant::QueryMissing, "required query string is missing")
    );
}

#[test]
fn source_table() {
    assert_eq!(
        recover_source(&source::Error::Git { description: text("reference not found") }),
        classified(400, Variant::GitError, "Internal Git error: reference not found")
    );
    assert_eq!(
        recover_source(&source::Error::NoBranches),
        classified(400, Variant::GitError, "the repository has no branches")
    );
    assert_eq!(
        recover_source(&source::Error::PathNotFound { path: text("src/main.rs") }),
        classified(404, Variant::NotFound, "src/main.rs")
    );
    assert_eq!(
        recover_source(&source::Error::Other { description: text("no revisions") }),
        classified(500, Variant::InternalServerError, "no revisions")
    );
}

#[test]
fn no_branches_message_is_the_source_browsers() {
    let have = recover_source(&source::Error::NoBranches);

    assert_eq!(have.message, radicle_source::error::Error::NoBranches.to_string());
}

#[test]
fn checkout_table() {
    assert_eq!(
        recover_checkout(&state::Checkout::AlreadyExists { description: text("taken") }),
        classified(409, Variant::PathExists, "taken")
    );
    assert_eq!(
        recover_checkout(&state::Checkout::Git { message: text("bad object") }),
        classified(500, Variant::GitError, "bad object")
    );
    assert_eq!(
        recover_checkout(&state::Checkout::Include { description: text("no include") }),
        classified(500, Variant::InternalError, "no include")
    );
    assert_eq!(
        recover_checkout(&state::Checkout::Io { description: text("disk full") }),
        classified(500, Variant::InternalError, "disk full")
    );
    assert_eq!(
        recover_checkout(&state::Checkout::Transport { description: text("no route") }),
        classified(500, Variant::TransportError, "no route")
    );
    assert_eq!(
        recover_checkout(&state::Checkout::Prefix { description: text("no prefix") }),
        classified(500, Variant::PrefixError, "no prefix")
    );
}

#[test]
fn validation_table() {
    let d = || text("why");
    let rows = vec![
        (state::Validation::AlreadyExists { description: d() }, 409, Variant::PathExists),
        (state::Validation::EmptyExistingPath { description: d() }, 400, Variant::EmptyPath),
        (state::Validation::Git { description: d() }, 500, Variant::GitError),
        (
            state::Validation::MissingAuthorEmail { description: d() },
            400,
            Variant::MissingAuthorEmail,
        ),
        (state::Validation::MissingGitConfig { description: d() }, 400, Variant::MissingGitConfig),
        (
            state::Validation::MissingAuthorName { description: d() },
            400,
            Variant::MissingAuthorName,
        ),
        (
            state::Validation::MissingDefaultBranch { description: d() },
            400,
            Variant::MissingDefaultBranch,
        ),
        (state::Validation::MissingUrl { description: d() }, 400, Variant::MissingUrl),
        (state::Validation::PathDoesNotExist { description: d() }, 404, Variant::PathDoesNotExist),
        (state::Validation::NotARepo { description: d() }, 400, Variant::NotARepo),
        (state::Validation::Io { description: d() }, 400, Variant::IoError),
        (state::Validation::UrlMismatch { description: d() }, 400, Variant::UrlMismatch),
        (state::Validation::Transport { description: d() }, 500, Variant::TransportError),
        (state::Validation::Remote { description: d() }, 500, Variant::MissingRemote),
    ];

    for (failure, status, variant) in rows {
        assert_eq!(recover_validation(&failure), classified(status, variant, "why"));
    }
}

#[test]
fn state_table() {
    assert_eq!(
        recover_state(&state::Error::Git { debug: text("Error { code: -1, klass: 2 }") }),
        classified(400, Variant::GitError, "Internal Git error: Error { code: -1, klass: 2 }")
    );
    assert_eq!(
        recover_state(&state::Error::MissingOwner { description: text("no default owner") }),
        classified(401, Variant::Unauthorized, "no default owner")
    );
    assert_eq!(
        recover_state(&state::Error::Storage(state::Storage::Blob(state::Blob::NotFound))),
        classified(404, Variant::NotFound, "entity not found")
    );
    assert_eq!(
        recover_state(&state::Error::IdentityExists { description: text("exists") }),
        classified(409, Variant::IdentityExists, "exists")
    );
}

#[test]
fn state_failures_without_a_case_are_server_errors() {
    let failures = vec![
        state::Error::Create(state::Create::Other { description: text("what") }),
        state::Error::Storage(state::Storage::Blob(state::Blob::Other {
            description: text("what"),
        })),
        state::Error::Storage(state::Storage::Other { description: text("what") }),
        state::Error::Other { description: text("what") },
    ];

    for failure in failures {
        assert_eq!(
            recover_state(&failure),
            classified(500, Variant::InternalServerError, "what")
        );
    }
}

#[test]
fn nested_causes_keep_their_classification() {
    let checkout = state::Checkout::Transport { description: text("no route") };
    let validation = state::Validation::NotARepo { description: text("no .git") };

    assert_eq!(
        recover_failure(&error::Error::State(state::Error::Checkout(checkout.clone()))),
        recover_checkout(&checkout)
    );
    assert_eq!(
        recover_failure(&error::Error::State(state::Error::Create(state::Create::Validation(
            validation.clone()
        )))),
        recover_validation(&validation)
    );
    assert_eq!(
        recover_failure(&error::Error::Source(source::Error::NoBranches)),
        recover_source(&source::Error::NoBranches)
    );
}

#[test]
fn keystore_table() {
    assert_eq!(
        recover_keystore(&keystore::Error::new(true, false, text("why"))),
        classified(403, Variant::IncorrectPassphrase, "That's the wrong passphrase.")
    );
    assert_eq!(
        recover_keystore(&keystore::Error::new(true, true, text("why"))),
        classified(403, Variant::IncorrectPassphrase, "That's the wrong passphrase.")
    );
    assert_eq!(
        recover_keystore(&keystore::Error::new(false, true, text("why"))),
        classified(409, Variant::KeyExists, "A key already exists")
    );
    assert_eq!(
        recover_keystore(&keystore::Error::new(false, false, text("why"))),
        classified(500, Variant::InternalServerError, "why")
    );
}

#[test]
fn keystore_failure_answers_its_questions() {
    let failure = keystore::Error::new(true, false, text("unable to decrypt"));

    assert!(failure.is_invalid_passphrase());
    assert!(!failure.is_key_exists());
    assert_eq!(failure.to_string(), "unable to decrypt");

    let failure = keystore::Error::new(false, true, text("key exists"));

    assert!(!failure.is_invalid_passphrase());
    assert!(failure.is_key_exists());
    assert_eq!(failure.to_string(), "key exists");
}
