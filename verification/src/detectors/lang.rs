//! Detectors for programming languages.  These keyword heuristics overlap
//! by design; the pipeline order in `detect` resolves the ambiguous pairs.

use vstd::prelude::*;
use crate::textscan::{chars_of, contains_lit, contains_seq, prefix_lit};

verus! {

/// Rust shape: a characteristic keyword occurs.
pub open spec fn rust_like(s: Seq<char>) -> bool {
    ||| contains_seq(s, "fn "@)
    ||| contains_seq(s, "impl "@)
    ||| contains_seq(s, "use "@)
    ||| contains_seq(s, "struct "@)
    ||| contains_seq(s, "enum "@)
    ||| contains_seq(s, "trait "@)
    ||| contains_seq(s, "let mut "@)
    ||| contains_seq(s, "match "@)
}

/// Whether `s` is Rust-shaped.
pub fn is_rust(text: &str) -> (r: bool)
    ensures
        r == rust_like(text@),
{
    let cs = chars_of(text);
    contains_lit(&cs, "fn ") || contains_lit(&cs, "impl ") || contains_lit(&cs, "use ")
        || contains_lit(&cs, "struct ") || contains_lit(&cs, "enum ") || contains_lit(
        &cs,
        "trait ",
    ) || contains_lit(&cs, "let mut ") || contains_lit(&cs, "match ")
}

/// Python shape: a shebang or a characteristic keyword.
pub open spec fn python_like(s: Seq<char>) -> bool {
    ||| "#!/usr/bin/env python"@.is_prefix_of(s)
    ||| "#!/usr/bin/python"@.is_prefix_of(s)
    ||| contains_seq(s, "import "@)
    ||| contains_seq(s, "from "@)
    ||| contains_seq(s, "def "@)
    ||| contains_seq(s, "class "@)
    ||| contains_seq(s, "if __name__"@)
    ||| contains_seq(s, "print("@)
}

/// Whether `s` is Python-shaped.
pub fn is_python(text: &str) -> (r: bool)
    ensures
        r == python_like(text@),
{
    let cs = chars_of(text);
    prefix_lit(&cs, "#!/usr/bin/env python") || prefix_lit(&cs, "#!/usr/bin/python")
        || contains_lit(&cs, "import ") || contains_lit(&cs, "from ") || contains_lit(&cs, "def ")
        || contains_lit(&cs, "class ") || contains_lit(&cs, "if __name__") || contains_lit(
        &cs,
        "print(",
    )
}

/// TypeScript shape: a type annotation or declaration keyword occurs.
pub open spec fn typescript_like(s: Seq<char>) -> bool {
    ||| contains_seq(s, "interface "@)
    ||| contains_seq(s, "type "@)
    ||| contains_seq(s, ": string"@)
    ||| contains_seq(s, ": number"@)
    ||| contains_seq(s, ": boolean"@)
    ||| contains_seq(s, "enum "@)
}

/// Whether `s` is TypeScript-shaped.
pub fn is_typescript(text: &str) -> (r: bool)
    ensures
        r == typescript_like(text@),
{
    let cs = chars_of(text);
    contains_lit(&cs, "interface ") || contains_lit(&cs, "type ") || contains_lit(&cs, ": string")
        || contains_lit(&cs, ": number") || contains_lit(&cs, ": boolean") || contains_lit(
        &cs,
        "enum ",
    )
}

/// JavaScript shape: a declaration keyword or console call occurs.
pub open spec fn javascript_like(s: Seq<char>) -> bool {
    ||| contains_seq(s, "const "@)
    ||| contains_seq(s, "let "@)
    ||| contains_seq(s, "var "@)
    ||| contains_seq(s, "function "@)
    ||| contains_seq(s, "=>"@)
    ||| contains_seq(s, "console.log("@)
}

/// Whether `s` is JavaScript-shaped.
pub fn is_javascript(text: &str) -> (r: bool)
    ensures
        r == javascript_like(text@),
{
    let cs = chars_of(text);
    contains_lit(&cs, "const ") || contains_lit(&cs, "let ") || contains_lit(&cs, "var ")
        || contains_lit(&cs, "function ") || contains_lit(&cs, "=>") || contains_lit(
        &cs,
        "console.log(",
    )
}

/// Go shape: a package/function keyword, or a struct type declaration.
pub open spec fn go_like(s: Seq<char>) -> bool {
    ||| contains_seq(s, "package "@)
    ||| contains_seq(s, "func "@)
    ||| contains_seq(s, "import ("@)
    ||| contains_seq(s, "var "@)
    ||| (contains_seq(s, "type "@) && contains_seq(s, " struct"@))
}

/// Whether `s` is Go-shaped.
pub fn is_go(text: &str) -> (r: bool)
    ensures
        r == go_like(text@),
{
    let cs = chars_of(text);
    contains_lit(&cs, "package ") || contains_lit(&cs, "func ") || contains_lit(&cs, "import (")
        || contains_lit(&cs, "var ") || (contains_lit(&cs, "type ") && contains_lit(
        &cs,
        " struct",
    ))
}

/// Java shape: a characteristic declaration occurs.
pub open spec fn java_like(s: Seq<char>) -> bool {
    ||| contains_seq(s, "public class "@)
    ||| contains_seq(s, "private "@)
    ||| contains_seq(s, "public static void main"@)
    ||| contains_seq(s, "import java."@)
}

/// Whether `s` is Java-shaped.
pub fn is_java(text: &str) -> (r: bool)
    ensures
        r == java_like(text@),
{
    let cs = chars_of(text);
    contains_lit(&cs, "public class ") || contains_lit(&cs, "private ") || contains_lit(
        &cs,
        "public static void main",
    ) || contains_lit(&cs, "import java.")
}

/// C# shape: a characteristic declaration occurs.
pub open spec fn csharp_like(s: Seq<char>) -> bool {
    ||| contains_seq(s, "using System"@)
    ||| contains_seq(s, "namespace "@)
    ||| contains_seq(s, "public class "@)
    ||| contains_seq(s, "static void Main"@)
}

/// Whether `s` is C#-shaped.
pub fn is_csharp(text: &str) -> (r: bool)
    ensures
        r == csharp_like(text@),
{
    let cs = chars_of(text);
    contains_lit(&cs, "using System") || contains_lit(&cs, "namespace ") || contains_lit(
        &cs,
        "public class ",
    ) || contains_lit(&cs, "static void Main")
}

/// C++ shape: an include, scope operator or stream call occurs.
pub open spec fn cpp_like(s: Seq<char>) -> bool {
    ||| contains_seq(s, "#include <"@)
    ||| contains_seq(s, "std::"@)
    ||| contains_seq(s, "cout <<"@)
    ||| contains_seq(s, "namespace "@)
    ||| (contains_seq(s, "class "@) && contains_seq(s, "::"@))
}

/// Whether `s` is C++-shaped.
pub fn is_cpp(text: &str) -> (r: bool)
    ensures
        r == cpp_like(text@),
{
    let cs = chars_of(text);
    contains_lit(&cs, "#include <") || contains_lit(&cs, "std::") || contains_lit(&cs, "cout <<")
        || contains_lit(&cs, "namespace ") || (contains_lit(&cs, "class ") && contains_lit(
        &cs,
        "::",
    ))
}

/// C shape: a standard include or a plain function signature occurs.
pub open spec fn c_like(s: Seq<char>) -> bool {
    ||| contains_seq(s, "#include <stdio.h>"@)
    ||| contains_seq(s, "#include <stdlib.h>"@)
    ||| contains_seq(s, "int main("@)
    ||| contains_seq(s, "void "@)
}

/// Whether `s` is C-shaped.
pub fn is_c(text: &str) -> (r: bool)
    ensures
        r == c_like(text@),
{
    let cs = chars_of(text);
    contains_lit(&cs, "#include <stdio.h>") || contains_lit(&cs, "#include <stdlib.h>")
        || contains_lit(&cs, "int main(") || contains_lit(&cs, "void ")
}

/// Shell shape: a shebang or a characteristic builtin occurs.
pub open spec fn shell_like(s: Seq<char>) -> bool {
    ||| "#!/bin/bash"@.is_prefix_of(s)
    ||| "#!/bin/sh"@.is_prefix_of(s)
    ||| "#!/usr/bin/env bash"@.is_prefix_of(s)
    ||| contains_seq(s, "echo "@)
    ||| contains_seq(s, "if ["@)
    ||| contains_seq(s, "for "@)
}

/// Whether `s` is shell-script-shaped.
pub fn is_shell(text: &str) -> (r: bool)
    ensures
        r == shell_like(text@),
{
    let cs = chars_of(text);
    prefix_lit(&cs, "#!/bin/bash") || prefix_lit(&cs, "#!/bin/sh") || prefix_lit(
        &cs,
        "#!/usr/bin/env bash",
    ) || contains_lit(&cs, "echo ") || contains_lit(&cs, "if [") || contains_lit(&cs, "for ")
}

/// PowerShell shape: a characteristic automatic variable or verb-noun call.
pub open spec fn powershell_like(s: Seq<char>) -> bool {
    ||| contains_seq(s, "$PSVersionTable"@)
    ||| contains_seq(s, "Get-"@)
    ||| contains_seq(s, "Set-"@)
    ||| contains_seq(s, "Write-Host"@)
    ||| "param("@.is_prefix_of(s)
}

/// Whether `s` is PowerShell-shaped.
pub fn is_powershell(text: &str) -> (r: bool)
    ensures
        r == powershell_like(text@),
{
    let cs = chars_of(text);
    contains_lit(&cs, "$PSVersionTable") || contains_lit(&cs, "Get-") || contains_lit(&cs, "Set-")
        || contains_lit(&cs, "Write-Host") || prefix_lit(&cs, "param(")
}

/// Ruby shape: a shebang or a characteristic keyword occurs.
pub open spec fn ruby_like(s: Seq<char>) -> bool {
    ||| "#!/usr/bin/env ruby"@.is_prefix_of(s)
    ||| contains_seq(s, "puts "@)
    ||| contains_seq(s, "require "@)
    ||| contains_seq(s, "def "@)
    ||| (contains_seq(s, "class "@) && contains_seq(s, "end"@))
}

/// Whether `s` is Ruby-shaped.
pub fn is_ruby(text: &str) -> (r: bool)
    ensures
        r == ruby_like(text@),
{
    let cs = chars_of(text);
    prefix_lit(&cs, "#!/usr/bin/env ruby") || contains_lit(&cs, "puts ") || contains_lit(
        &cs,
        "require ",
    ) || contains_lit(&cs, "def ") || (contains_lit(&cs, "class ") && contains_lit(&cs, "end"))
}

/// PHP shape: an opening tag or an echo with a variable sigil.
pub open spec fn php_like(s: Seq<char>) -> bool {
    ||| "<?php"@.is_prefix_of(s)
    ||| contains_seq(s, "<?="@)
    ||| contains_seq(s, "echo "@)
    ||| (contains_seq(s, "function "@) && contains_seq(s, "$"@))
}

/// Whether `s` is PHP-shaped.
pub fn is_php(text: &str) -> (r: bool)
    ensures
        r == php_like(text@),
{
    let cs = chars_of(text);
    prefix_lit(&cs, "<?php") || contains_lit(&cs, "<?=") || contains_lit(&cs, "echo ") || (
    contains_lit(&cs, "function ") && contains_lit(&cs, "$"))
}

/// Swift shape: a framework import or a typed declaration occurs.
pub open spec fn swift_like(s: Seq<char>) -> bool {
    ||| contains_seq(s, "import Foundation"@)
    ||| contains_seq(s, "import UIKit"@)
    ||| contains_seq(s, "func "@)
    ||| (contains_seq(s, "var "@) && contains_seq(s, ": "@))
}

/// Whether `s` is Swift-shaped.
pub fn is_swift(text: &str) -> (r: bool)
    ensures
        r == swift_like(text@),
{
    let cs = chars_of(text);
    contains_lit(&cs, "import Foundation") || contains_lit(&cs, "import UIKit") || contains_lit(
        &cs,
        "func ",
    ) || (contains_lit(&cs, "var ") && contains_lit(&cs, ": "))
}

/// Kotlin shape: a characteristic keyword or import occurs.
pub open spec fn kotlin_like(s: Seq<char>) -> bool {
    ||| contains_seq(s, "fun "@)
    ||| contains_seq(s, "val "@)
    ||| (contains_seq(s, "var "@) && contains_seq(s, ": "@))
    ||| contains_seq(s, "import kotlin."@)
}

/// Whether `s` is Kotlin-shaped.
pub fn is_kotlin(text: &str) -> (r: bool)
    ensures
        r == kotlin_like(text@),
{
    let cs = chars_of(text);
    contains_lit(&cs, "fun ") || contains_lit(&cs, "val ") || (contains_lit(&cs, "var ")
        && contains_lit(&cs, ": ")) || contains_lit(&cs, "import kotlin.")
}

} // verus!
