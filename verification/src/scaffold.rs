//! The files that make an emitted project a TypeScript package: its
//! manifest and the settings of the compiler and of the test runner. Their
//! text is fixed, but for the name of the package.

use vstd::prelude::*;

verus! {

pub const PACKAGE_JSON_FILE: &'static str = "package.json";

pub const TS_CONFIG_FILE: &'static str = "tsconfig.json";

pub const JEST_CONFIG_FILE: &'static str = "jest.config.js";

/// The manifest up to the name of the package.
pub const PACKAGE_JSON_HEAD: &'static str = r###"
{
  "name": ""###;

/// The manifest after the name of the package.
pub const PACKAGE_JSON_TAIL: &'static str = r###"",
  "version": "0.0.1",
  "scripts": {
    "build": "rm -rf dist; tsc -p tsconfig.json",
    "test": "jest"
  },
  "main": "dist/index.js",
  "typings": "dist/index.d.ts",
  "files": [ "src", "dist" ],
  "devDependencies": {
    "@types/jest": "^27.4.1",
    "@types/node": "^17.0.31",
    "@typescript-eslint/eslint-plugin": "^5.22.0",
    "@typescript-eslint/parser": "^5.22.0",
    "eslint": "^8.15.0",
    "eslint-config-prettier": "^8.5.0",
    "eslint-plugin-prettier": "^4.0.0",
    "jest": "^27.5.1",
    "prettier": "^2.6.2",
    "ts-jest": "^27.1.4",
    "typescript": "^4.6.4"
  },
  "dependencies": {
    "aptos": "^1.2.0",
    "big-integer": "^1.6.51",
    "@manahippo/move-to-ts": "^0.0.49"
  }
}
"###;

pub const TS_CONFIG: &'static str = r###"
{
  "compilerOptions": {
    "target": "es2016",
    "module": "commonjs",
    "rootDir": "./src",
    "moduleResolution": "node",
    "declaration": true,
    "declarationMap": true,
    "sourceMap": true,
    "outDir": "./dist",
    "esModuleInterop": true,
    "forceConsistentCasingInFileNames": true,
    "strict": true,
    "skipLibCheck": true
  }
}
"###;

pub const JEST_CONFIG: &'static str = r###"
module.exports = {
  preset: "ts-jest",
  testEnvironment: "node",
  testPathIgnorePatterns: ["dist/*"],
};
"###;

/// The text of the manifest of the package called `package_name`. The name
/// is written between the quotes as it stands.
pub open spec fn package_json_text(package_name: Seq<char>) -> Seq<char> {
    PACKAGE_JSON_HEAD@ + package_name + PACKAGE_JSON_TAIL@
}

/// `package.json` for the package called `package_name`.
pub fn generate_package_json(package_name: String) -> (file: (String, String))
    ensures
        file.0@ == PACKAGE_JSON_FILE@,
        file.1@ == package_json_text(package_name@),
{
    let mut content = PACKAGE_JSON_HEAD.to_string();
    content.append(package_name.as_str());
    content.append(PACKAGE_JSON_TAIL);
    (PACKAGE_JSON_FILE.to_string(), content)
}

/// `tsconfig.json`, the same for every project.
pub fn generate_ts_config() -> (file: (String, String))
    ensures
        file.0@ == TS_CONFIG_FILE@,
        file.1@ == TS_CONFIG@,
{
    (TS_CONFIG_FILE.to_string(), TS_CONFIG.to_string())
}

/// `jest.config.js`, the same for every project.
pub fn generate_jest_config() -> (file: (String, String))
    ensures
        file.0@ == JEST_CONFIG_FILE@,
        file.1@ == JEST_CONFIG@,
{
    (JEST_CONFIG_FILE.to_string(), JEST_CONFIG.to_string())
}

} // verus!
