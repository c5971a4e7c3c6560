//! Audit-script path construction.

use ecoindex_analyzer::paths::lighthouse_script_path;

#[test]
fn test_lighthouse_script_path() {
    assert_eq!(
        lighthouse_script_path("/app/resources"),
        "/app/resources/lighthouse-sidecar/node-main.mjs"
    );
}
