//! The template bodies: one constant text per language, and one function per
//! language that hands the text out as an owned string.

use vstd::prelude::*;
use vstd::string::*;

verus! {

pub const RUST_TEMPLATE: &'static str = r#"fn main() {
    println!("Hello, world!");
}"#;

pub const PYTHON_TEMPLATE: &'static str = r#"if __name__ == "__main__":
    print("Hello, world!")"#;

pub const JAVASCRIPT_TEMPLATE: &'static str = r#"console.log("Hello, world!");"#;

pub const JAVA_TEMPLATE: &'static str = r#"public class Main {
        public static void main(String[] args) {
            System.out.println("Hello, world!");
        }
}"#;

pub const CS_TEMPLATE: &'static str = r#"Console.WriteLine("Hello, world!");"#;

pub const GO_TEMPLATE: &'static str = r#"package main

import "fmt"

func main() {
    fmt.Println("Hello, world!")
}"#;

pub const CPP_TEMPLATE: &'static str = r#"#include <iostream>

int main() {
    std::cout << "Hello, world!" << std::endl;
    return 0;
}
    "#;

pub const RUBY_TEMPLATE: &'static str = r#"puts "Hello, world!""#;

pub const HASKELL_TEMPLATE: &'static str = r#"main = putStrLn "Hello, world!""#;

pub const KOTLIN_TEMPLATE: &'static str = r#"fun main(args : Array<String>) {
        println("Hello, world!")
    }"#;

pub const LUA_TEMPLATE: &'static str = r#"print("Hello, world!")"#;

pub const C_TEMPLATE: &'static str = r#"#include <stdio.h>

    int main() {
        printf("Hello, World!\n");
        return 0;
    }"#;

pub const ZIG_TEMPLATE: &'static str = r#"const std = @import("std");

    pub fn main() !void {
        std.debug.print("Hello, World!\n", .{});
    }"#;

pub const HTML_TEMPLATE: &'static str = r#"<!DOCTYPE html>
<html lang="en">
  <head>
    <meta charset="UTF-8">
    <meta name="viewport" content="width=device-width, initial-scale=1.0">
    <meta http-equiv="X-UA-Compatible" content="ie=edge">
    <title>HTML 5 Boilerplate</title>
    <link rel="stylesheet" href="style.css">
  </head>
  <body>
    <script src="index.js"></script>
  </body>
</html>"#;

/// The Rust template.
pub fn rust_boilerplate() -> (r: String)
    ensures
        r@ == RUST_TEMPLATE@,
{
    String::from_str(RUST_TEMPLATE)
}

/// The Python template.
pub fn python_boilerplate() -> (r: String)
    ensures
        r@ == PYTHON_TEMPLATE@,
{
    String::from_str(PYTHON_TEMPLATE)
}

/// The JavaScript template.
pub fn javascript_boilerplate() -> (r: String)
    ensures
        r@ == JAVASCRIPT_TEMPLATE@,
{
    String::from_str(JAVASCRIPT_TEMPLATE)
}

/// The Java template.
pub fn java_boilerplate() -> (r: String)
    ensures
        r@ == JAVA_TEMPLATE@,
{
    String::from_str(JAVA_TEMPLATE)
}

/// The C# template.
pub fn cs_boilerplate() -> (r: String)
    ensures
        r@ == CS_TEMPLATE@,
{
    String::from_str(CS_TEMPLATE)
}

/// The Go template.
pub fn go_boilerplate() -> (r: String)
    ensures
        r@ == GO_TEMPLATE@,
{
    String::from_str(GO_TEMPLATE)
}

/// The C++ template.
pub fn cpp_boilerplate() -> (r: String)
    ensures
        r@ == CPP_TEMPLATE@,
{
    String::from_str(CPP_TEMPLATE)
}

/// The Ruby template.
pub fn ruby_boilerplate() -> (r: String)
    ensures
        r@ == RUBY_TEMPLATE@,
{
    String::from_str(RUBY_TEMPLATE)
}

/// The Haskell template.
pub fn haskell_boilerplate() -> (r: String)
    ensures
        r@ == HASKELL_TEMPLATE@,
{
    String::from_str(HASKELL_TEMPLATE)
}

/// The Kotlin template.
pub fn kotlin_boilerplate() -> (r: String)
    ensures
        r@ == KOTLIN_TEMPLATE@,
{
    String::from_str(KOTLIN_TEMPLATE)
}

/// The Lua template.
pub fn lua_boilerplate() -> (r: String)
    ensures
        r@ == LUA_TEMPLATE@,
{
    String::from_str(LUA_TEMPLATE)
}

/// The C template.
pub fn c_boilerplate() -> (r: String)
    ensures
        r@ == C_TEMPLATE@,
{
    String::from_str(C_TEMPLATE)
}

/// The Zig template.
pub fn zig_boilerplate() -> (r: String)
    ensures
        r@ == ZIG_TEMPLATE@,
{
    String::from_str(ZIG_TEMPLATE)
}

/// The HTML template.
pub fn html_boilerplate() -> (r: String)
    ensures
        r@ == HTML_TEMPLATE@,
{
    String::from_str(HTML_TEMPLATE)
}

/// No template is empty.
pub proof fn lemma_templates_not_empty()
    ensures
        RUST_TEMPLATE@.len() > 0,
        PYTHON_TEMPLATE@.len() > 0,
        JAVASCRIPT_TEMPLATE@.len() > 0,
        JAVA_TEMPLATE@.len() > 0,
        CS_TEMPLATE@.len() > 0,
        GO_TEMPLATE@.len() > 0,
        CPP_TEMPLATE@.len() > 0,
        RUBY_TEMPLATE@.len() > 0,
        HASKELL_TEMPLATE@.len() > 0,
        KOTLIN_TEMPLATE@.len() > 0,
        LUA_TEMPLATE@.len() > 0,
        C_TEMPLATE@.len() > 0,
        ZIG_TEMPLATE@.len() > 0,
        HTML_TEMPLATE@.len() > 0,
{
    reveal_strlit(
        r#"fn main() {
    println!("Hello, world!");
}"#,
    );
    reveal_strlit(
        r#"if __name__ == "__main__":
    print("Hello, world!")"#,
    );
    reveal_strlit(
        r#"console.log("Hello, world!");"#,
    );
    reveal_strlit(
        r#"public class Main {
        public static void main(String[] args) {
            System.out.println("Hello, world!");
        }
}"#,
    );
    reveal_strlit(
        r#"Console.WriteLine("Hello, world!");"#,
    );
    reveal_strlit(
        r#"package main

import "fmt"

func main() {
    fmt.Println("Hello, world!")
}"#,
    );
    reveal_strlit(
        r#"#include <iostream>

int main() {
    std::cout << "Hello, world!" << std::endl;
    return 0;
}
    "#,
    );
    reveal_strlit(
        r#"puts "Hello, world!""#,
    );
    reveal_strlit(
        r#"main = putStrLn "Hello, world!""#,
    );
    reveal_strlit(
        r#"fun main(args : Array<String>) {
        println("Hello, world!")
    }"#,
    );
    reveal_strlit(
        r#"print("Hello, world!")"#,
    );
    reveal_strlit(
        r#"#include <stdio.h>

    int main() {
        printf("Hello, World!\n");
        return 0;
    }"#,
    );
    reveal_strlit(
        r#"const std = @import("std");

    pub fn main() !void {
        std.debug.print("Hello, World!\n", .{});
    }"#,
    );
    reveal_strlit(
        r#"<!DOCTYPE html>
<html lang="en">
  <head>
    <meta charset="UTF-8">
    <meta name="viewport" content="width=device-width, initial-scale=1.0">
    <meta http-equiv="X-UA-Compatible" content="ie=edge">
    <title>HTML 5 Boilerplate</title>
    <link rel="stylesheet" href="style.css">
  </head>
  <body>
    <script src="index.js"></script>
  </body>
</html>"#,
    );
}

} // verus!
