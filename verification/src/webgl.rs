//! The WebGL objects scripts receive, and the values of the GL queries
//! scripts make.

use crate::text::{decimal, push_decimal};
use vstd::prelude::*;

verus! {

/// GL's `DELETE_STATUS` query.
pub const DELETE_STATUS: u32 = 0x8B80;
/// GL's `COMPILE_STATUS` query.
pub const COMPILE_STATUS: u32 = 0x8B81;
/// GL's `LINK_STATUS` query.
pub const LINK_STATUS: u32 = 0x8B82;
/// GL's `VALIDATE_STATUS` query.
pub const VALIDATE_STATUS: u32 = 0x8B83;

/// A query result as the script sees it.
#[derive(Clone, Copy, PartialEq, Eq, Structural, Debug)]
pub enum ParamValue {
    Boolean(bool),
    Int32(i32),
}

/// A shader query's result: the status queries give a boolean (whether GL
/// answered a positive number), every other query the number itself.
pub fn shader_parameter(param: u32, out: i32) -> (r: ParamValue)
    ensures
        (param == COMPILE_STATUS || param == DELETE_STATUS) ==> r == ParamValue::Boolean(out > 0),
        !(param == COMPILE_STATUS || param == DELETE_STATUS) ==> r == ParamValue::Int32(out),
{
    if param == COMPILE_STATUS || param == DELETE_STATUS {
        ParamValue::Boolean(out > 0)
    } else {
        ParamValue::Int32(out)
    }
}

/// A program query's result, in the same way, with the link, delete and
/// validate statuses as booleans.
pub fn program_parameter(param: u32, out: i32) -> (r: ParamValue)
    ensures
        (param == LINK_STATUS || param == DELETE_STATUS || param == VALIDATE_STATUS) ==> r
            == ParamValue::Boolean(out > 0),
        !(param == LINK_STATUS || param == DELETE_STATUS || param == VALIDATE_STATUS) ==> r
            == ParamValue::Int32(out),
{
    if param == LINK_STATUS || param == DELETE_STATUS || param == VALIDATE_STATUS {
        ParamValue::Boolean(out > 0)
    } else {
        ParamValue::Int32(out)
    }
}

/// The kinds of GL object a script can hold.
#[derive(Clone, Copy, PartialEq, Eq, Structural, Debug)]
pub enum WebGLKind {
    Shader,
    Program,
    Buffer,
    UniformLocation,
}

/// The class name of a kind of GL object.
pub open spec fn kind_name(k: WebGLKind) -> Seq<char> {
    match k {
        WebGLKind::Shader => "WebGLShader"@,
        WebGLKind::Program => "WebGLProgram"@,
        WebGLKind::Buffer => "WebGLBuffer"@,
        WebGLKind::UniformLocation => "WebGLUniformLocation"@,
    }
}

/// What `toString` gives for a GL object: its class name and GL id in
/// braces, as in `{WebGLShader 3}`.
pub fn describe(kind: WebGLKind, id: u64) -> (s: String)
    ensures
        s@ == "{"@ + kind_name(kind) + " "@ + decimal(id as nat) + "}"@,
{
    let mut s = String::from_str("{");
    match kind {
        WebGLKind::Shader => s.append("WebGLShader"),
        WebGLKind::Program => s.append("WebGLProgram"),
        WebGLKind::Buffer => s.append("WebGLBuffer"),
        WebGLKind::UniformLocation => s.append("WebGLUniformLocation"),
    }
    s.append(" ");
    push_decimal(&mut s, id);
    s.append("}");
    s
}

} // verus!
