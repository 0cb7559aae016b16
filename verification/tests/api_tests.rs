use chunkstore::api::{ApiResponse, PaginationQuery};
use chunkstore::config::{
    chunk_limit, default_extension, size_limit, AssetClass, UploadConfig,
};
use chunkstore::naming::{extension_of, make_asset_name};
use chunkstore::auth::{credentials_valid, make_claims, AuthConfig, LoginRequest, TOKEN_VALIDITY_SECS};

#[test]
fn response_envelope_success_and_error() {
    let ok: ApiResponse<u32> = ApiResponse::success(7);
    assert!(ok.success);
    assert_eq!(ok.data, Some(7));
    assert!(ok.message.is_none());

    let err: ApiResponse<u32> = ApiResponse::error("refused".to_string());
    assert!(!err.success);
    assert!(err.data.is_none());
    assert_eq!(err.message, Some("refused".to_string()));
}

#[test]
fn default_config_matches_stock_limits() {
    let config = UploadConfig::default();
    assert_eq!(config.upload_dir, "uploads".to_string());
    assert_eq!(config.max_file_size, 500 * 1024 * 1024);
    assert_eq!(size_limit(AssetClass::Video, &config), 500 * 1024 * 1024);
    assert_eq!(size_limit(AssetClass::Thumbnail, &config), 5 * 1024 * 1024);
    assert_eq!(size_limit(AssetClass::ChannelImage, &config), 2 * 1024 * 1024);
    assert_eq!(chunk_limit(AssetClass::Video), 10 * 1024 * 1024);
    assert_eq!(chunk_limit(AssetClass::Thumbnail), 2 * 1024 * 1024);
    assert_eq!(chunk_limit(AssetClass::ChannelImage), 1024 * 1024);
    assert_eq!(default_extension(AssetClass::Video), "mp4");
    assert_eq!(default_extension(AssetClass::Thumbnail), "jpg");
    assert_eq!(default_extension(AssetClass::ChannelImage), "jpg");
}

#[test]
fn extension_is_taken_after_the_last_dot() {
    assert_eq!(extension_of("movie.mp4"), Some("mp4".to_string()));
    assert_eq!(extension_of("archive.tar.gz"), Some("gz".to_string()));
    assert_eq!(extension_of("a.b"), Some("b".to_string()));
    assert_eq!(extension_of("noext"), None);
    assert_eq!(extension_of(".hidden"), None);
    assert_eq!(extension_of("trailing."), None);
    assert_eq!(extension_of(""), None);
}

#[test]
fn asset_names_carry_token_and_extension() {
    assert_eq!(
        make_asset_name("tok", "film.avi", AssetClass::Video),
        "tok.avi".to_string()
    );
    assert_eq!(
        make_asset_name("tok", "bare", AssetClass::Video),
        "tok.mp4".to_string()
    );
    assert_eq!(
        make_asset_name("tok", "img", AssetClass::Thumbnail),
        "tok.jpg".to_string()
    );
}

#[test]
fn pagination_offset_counts_skipped_entries() {
    let q = PaginationQuery { page: Some(3), limit: Some(10) };
    assert_eq!(q.offset(), 20);
    assert_eq!(q.effective_limit(), 10);

    let defaults = PaginationQuery { page: None, limit: None };
    assert_eq!(defaults.offset(), 0);
    assert_eq!(defaults.effective_limit(), 20);

    let zero_page = PaginationQuery { page: Some(0), limit: Some(50) };
    assert_eq!(zero_page.offset(), 0);

    let large = PaginationQuery { page: Some(u32::MAX), limit: Some(u32::MAX) };
    assert_eq!(
        large.offset(),
        (u32::MAX as u64 - 1) * (u32::MAX as u64)
    );
}

#[test]
fn credentials_must_match_both_fields() {
    let config = AuthConfig {
        jwt_secret: "signing-key".to_string(),
        admin_username: "admin".to_string(),
        admin_password: "pw".to_string(),
    };
    let good = LoginRequest { username: "admin".to_string(), password: "pw".to_string() };
    let bad_user = LoginRequest { username: "root".to_string(), password: "pw".to_string() };
    let bad_pw = LoginRequest { username: "admin".to_string(), password: "nope".to_string() };
    assert!(credentials_valid(&config, &good));
    assert!(!credentials_valid(&config, &bad_user));
    assert!(!credentials_valid(&config, &bad_pw));
}

#[test]
fn issued_claims_expire_one_window_later() {
    let claims = make_claims("admin".to_string(), 1_000_000);
    assert_eq!(claims.sub, "admin".to_string());
    assert_eq!(claims.iat, 1_000_000);
    assert_eq!(claims.exp, 1_000_000 + TOKEN_VALIDITY_SECS);
    assert_eq!(TOKEN_VALIDITY_SECS, 24 * 60 * 60);
}
