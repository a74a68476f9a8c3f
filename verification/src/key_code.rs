//! The keys of a keyboard, by the numbers that the window system gives
//! them.

use vstd::prelude::*;

verus! {

/// A key of the keyboard.
#[derive(Clone, Copy, Debug, PartialEq, Eq, Structural)]
pub enum KeyCode {
    Space,
    Apostrophe,
    Comma,
    Minus,
    Period,
    Slash,
    Num0,
    Num1,
    Num2,
    Num3,
    Num4,
    Num5,
    Num6,
    Num7,
    Num8,
    Num9,
    Semicolon,
    Equal,
    A,
    B,
    C,
    D,
    E,
    F,
    G,
    H,
    I,
    J,
    K,
    L,
    M,
    N,
    O,
    P,
    Q,
    R,
    S,
    T,
    U,
    V,
    W,
    X,
    Y,
    Z,
    LeftBracket,
    Backslash,
    RightBracket,
    GraveAccent,
    World1,
    World2,
    Escape,
    Enter,
    Tab,
    Backspace,
    Insert,
    Delete,
    Right,
    Left,
    Down,
    Up,
    PageUp,
    PageDown,
    Home,
    End,
    CapsLock,
    ScrollLock,
    NumLock,
    PrintScreen,
    Pause,
    F1,
    F2,
    F3,
    F4,
    F5,
    F6,
    F7,
    F8,
    F9,
    F10,
    F11,
    F12,
    F13,
    F14,
    F15,
    F16,
    F17,
    F18,
    F19,
    F20,
    F21,
    F22,
    F23,
    F24,
    F25,
    KeyPad0,
    KeyPad1,
    KeyPad2,
    KeyPad3,
    KeyPad4,
    KeyPad5,
    KeyPad6,
    KeyPad7,
    KeyPad8,
    KeyPad9,
    KeyPadDecimal,
    KeyPadDivide,
    KeyPadMultiply,
    KeyPadSubtract,
    KeyPadAdd,
    KeyPadEnter,
    KeyPadEqual,
    LeftShift,
    LeftControl,
    LeftAlt,
    LeftSuper,
    RightShift,
    RightControl,
    RightAlt,
    RightSuper,
    Menu,
    Unknown,
}

/// The number that the window system gives a key; the unknown key has the
/// number below zero.
pub open spec fn number_of_key(key: KeyCode) -> i32 {
    match key {
        KeyCode::Space => 32,
        KeyCode::Apostrophe => 39,
        KeyCode::Comma => 44,
        KeyCode::Minus => 45,
        KeyCode::Period => 46,
        KeyCode::Slash => 47,
        KeyCode::Num0 => 48,
        KeyCode::Num1 => 49,
        KeyCode::Num2 => 50,
        KeyCode::Num3 => 51,
        KeyCode::Num4 => 52,
        KeyCode::Num5 => 53,
        KeyCode::Num6 => 54,
        KeyCode::Num7 => 55,
        KeyCode::Num8 => 56,
        KeyCode::Num9 => 57,
        KeyCode::Semicolon => 59,
        KeyCode::Equal => 61,
        KeyCode::A => 65,
        KeyCode::B => 66,
        KeyCode::C => 67,
        KeyCode::D => 68,
        KeyCode::E => 69,
        KeyCode::F => 70,
        KeyCode::G => 71,
        KeyCode::H => 72,
        KeyCode::I => 73,
        KeyCode::J => 74,
        KeyCode::K => 75,
        KeyCode::L => 76,
        KeyCode::M => 77,
        KeyCode::N => 78,
        KeyCode::O => 79,
        KeyCode::P => 80,
        KeyCode::Q => 81,
        KeyCode::R => 82,
        KeyCode::S => 83,
        KeyCode::T => 84,
        KeyCode::U => 85,
        KeyCode::V => 86,
        KeyCode::W => 87,
        KeyCode::X => 88,
        KeyCode::Y => 89,
        KeyCode::Z => 90,
        KeyCode::LeftBracket => 91,
        KeyCode::Backslash => 92,
        KeyCode::RightBracket => 93,
        KeyCode::GraveAccent => 96,
        KeyCode::World1 => 161,
        KeyCode::World2 => 162,
        KeyCode::Escape => 256,
        KeyCode::Enter => 257,
        KeyCode::Tab => 258,
        KeyCode::Backspace => 259,
        KeyCode::Insert => 260,
        KeyCode::Delete => 261,
        KeyCode::Right => 262,
        KeyCode::Left => 263,
        KeyCode::Down => 264,
        KeyCode::Up => 265,
        KeyCode::PageUp => 266,
        KeyCode::PageDown => 267,
        KeyCode::Home => 268,
        KeyCode::End => 269,
        KeyCode::CapsLock => 280,
        KeyCode::ScrollLock => 281,
        KeyCode::NumLock => 282,
        KeyCode::PrintScreen => 283,
        KeyCode::Pause => 284,
        KeyCode::F1 => 290,
        KeyCode::F2 => 291,
        KeyCode::F3 => 292,
        KeyCode::F4 => 293,
        KeyCode::F5 => 294,
        KeyCode::F6 => 295,
        KeyCode::F7 => 296,
        KeyCode::F8 => 297,
        KeyCode::F9 => 298,
        KeyCode::F10 => 299,
        KeyCode::F11 => 300,
        KeyCode::F12 => 301,
        KeyCode::F13 => 302,
        KeyCode::F14 => 303,
        KeyCode::F15 => 304,
        KeyCode::F16 => 305,
        KeyCode::F17 => 306,
        KeyCode::F18 => 307,
        KeyCode::F19 => 308,
        KeyCode::F20 => 309,
        KeyCode::F21 => 310,
        KeyCode::F22 => 311,
        KeyCode::F23 => 312,
        KeyCode::F24 => 313,
        KeyCode::F25 => 314,
        KeyCode::KeyPad0 => 320,
        KeyCode::KeyPad1 => 321,
        KeyCode::KeyPad2 => 322,
        KeyCode::KeyPad3 => 323,
        KeyCode::KeyPad4 => 324,
        KeyCode::KeyPad5 => 325,
        KeyCode::KeyPad6 => 326,
        KeyCode::KeyPad7 => 327,
        KeyCode::KeyPad8 => 328,
        KeyCode::KeyPad9 => 329,
        KeyCode::KeyPadDecimal => 330,
        KeyCode::KeyPadDivide => 331,
        KeyCode::KeyPadMultiply => 332,
        KeyCode::KeyPadSubtract => 333,
        KeyCode::KeyPadAdd => 334,
        KeyCode::KeyPadEnter => 335,
        KeyCode::KeyPadEqual => 336,
        KeyCode::LeftShift => 340,
        KeyCode::LeftControl => 341,
        KeyCode::LeftAlt => 342,
        KeyCode::LeftSuper => 343,
        KeyCode::RightShift => 344,
        KeyCode::RightControl => 345,
        KeyCode::RightAlt => 346,
        KeyCode::RightSuper => 347,
        KeyCode::Menu => 348,
        KeyCode::Unknown => -1i32,
    }
}

/// The key that the window system gives a number to; every number that no
/// key has stands for the unknown key.
pub open spec fn key_of_number(number: i32) -> KeyCode {
    if number == 32 {
        KeyCode::Space
    } else if number == 39 {
        KeyCode::Apostrophe
    } else if number == 44 {
        KeyCode::Comma
    } else if number == 45 {
        KeyCode::Minus
    } else if number == 46 {
        KeyCode::Period
    } else if number == 47 {
        KeyCode::Slash
    } else if number == 48 {
        KeyCode::Num0
    } else if number == 49 {
        KeyCode::Num1
    } else if number == 50 {
        KeyCode::Num2
    } else if number == 51 {
        KeyCode::Num3
    } else if number == 52 {
        KeyCode::Num4
    } else if number == 53 {
        KeyCode::Num5
    } else if number == 54 {
        KeyCode::Num6
    } else if number == 55 {
        KeyCode::Num7
    } else if number == 56 {
        KeyCode::Num8
    } else if number == 57 {
        KeyCode::Num9
    } else if number == 59 {
        KeyCode::Semicolon
    } else if number == 61 {
        KeyCode::Equal
    } else if number == 65 {
        KeyCode::A
    } else if number == 66 {
        KeyCode::B
    } else if number == 67 {
        KeyCode::C
    } else if number == 68 {
        KeyCode::D
    } else if number == 69 {
        KeyCode::E
    } else if number == 70 {
        KeyCode::F
    } else if number == 71 {
        KeyCode::G
    } else if number == 72 {
        KeyCode::H
    } else if number == 73 {
        KeyCode::I
    } else if number == 74 {
        KeyCode::J
    } else if number == 75 {
        KeyCode::K
    } else if number == 76 {
        KeyCode::L
    } else if number == 77 {
        KeyCode::M
    } else if number == 78 {
        KeyCode::N
    } else if number == 79 {
        KeyCode::O
    } else if number == 80 {
        KeyCode::P
    } else if number == 81 {
        KeyCode::Q
    } else if number == 82 {
        KeyCode::R
    } else if number == 83 {
        KeyCode::S
    } else if number == 84 {
        KeyCode::T
    } else if number == 85 {
        KeyCode::U
    } else if number == 86 {
        KeyCode::V
    } else if number == 87 {
        KeyCode::W
    } else if number == 88 {
        KeyCode::X
    } else if number == 89 {
        KeyCode::Y
    } else if number == 90 {
        KeyCode::Z
    } else if number == 91 {
        KeyCode::LeftBracket
    } else if number == 92 {
        KeyCode::Backslash
    } else if number == 93 {
        KeyCode::RightBracket
    } else if number == 96 {
        KeyCode::GraveAccent
    } else if number == 161 {
        KeyCode::World1
    } else if number == 162 {
        KeyCode::World2
    } else if number == 256 {
        KeyCode::Escape
    } else if number == 257 {
        KeyCode::Enter
    } else if number == 258 {
        KeyCode::Tab
    } else if number == 259 {
        KeyCode::Backspace
    } else if number == 260 {
        KeyCode::Insert
    } else if number == 261 {
        KeyCode::Delete
    } else if number == 262 {
        KeyCode::Right
    } else if number == 263 {
        KeyCode::Left
    } else if number == 264 {
        KeyCode::Down
    } else if number == 265 {
        KeyCode::Up
    } else if number == 266 {
        KeyCode::PageUp
    } else if number == 267 {
        KeyCode::PageDown
    } else if number == 268 {
        KeyCode::Home
    } else if number == 269 {
        KeyCode::End
    } else if number == 280 {
        KeyCode::CapsLock
    } else if number == 281 {
        KeyCode::ScrollLock
    } else if number == 282 {
        KeyCode::NumLock
    } else if number == 283 {
        KeyCode::PrintScreen
    } else if number == 284 {
        KeyCode::Pause
    } else if number == 290 {
        KeyCode::F1
    } else if number == 291 {
        KeyCode::F2
    } else if number == 292 {
        KeyCode::F3
    } else if number == 293 {
        KeyCode::F4
    } else if number == 294 {
        KeyCode::F5
    } else if number == 295 {
        KeyCode::F6
    } else if number == 296 {
        KeyCode::F7
    } else if number == 297 {
        KeyCode::F8
    } else if number == 298 {
        KeyCode::F9
    } else if number == 299 {
        KeyCode::F10
    } else if number == 300 {
        KeyCode::F11
    } else if number == 301 {
        KeyCode::F12
    } else if number == 302 {
        KeyCode::F13
    } else if number == 303 {
        KeyCode::F14
    } else if number == 304 {
        KeyCode::F15
    } else if number == 305 {
        KeyCode::F16
    } else if number == 306 {
        KeyCode::F17
    } else if number == 307 {
        KeyCode::F18
    } else if number == 308 {
        KeyCode::F19
    } else if number == 309 {
        KeyCode::F20
    } else if number == 310 {
        KeyCode::F21
    } else if number == 311 {
        KeyCode::F22
    } else if number == 312 {
        KeyCode::F23
    } else if number == 313 {
        KeyCode::F24
    } else if number == 314 {
        KeyCode::F25
    } else if number == 320 {
        KeyCode::KeyPad0
    } else if number == 321 {
        KeyCode::KeyPad1
    } else if number == 322 {
        KeyCode::KeyPad2
    } else if number == 323 {
        KeyCode::KeyPad3
    } else if number == 324 {
        KeyCode::KeyPad4
    } else if number == 325 {
        KeyCode::KeyPad5
    } else if number == 326 {
        KeyCode::KeyPad6
    } else if number == 327 {
        KeyCode::KeyPad7
    } else if number == 328 {
        KeyCode::KeyPad8
    } else if number == 329 {
        KeyCode::KeyPad9
    } else if number == 330 {
        KeyCode::KeyPadDecimal
    } else if number == 331 {
        KeyCode::KeyPadDivide
    } else if number == 332 {
        KeyCode::KeyPadMultiply
    } else if number == 333 {
        KeyCode::KeyPadSubtract
    } else if number == 334 {
        KeyCode::KeyPadAdd
    } else if number == 335 {
        KeyCode::KeyPadEnter
    } else if number == 336 {
        KeyCode::KeyPadEqual
    } else if number == 340 {
        KeyCode::LeftShift
    } else if number == 341 {
        KeyCode::LeftControl
    } else if number == 342 {
        KeyCode::LeftAlt
    } else if number == 343 {
        KeyCode::LeftSuper
    } else if number == 344 {
        KeyCode::RightShift
    } else if number == 345 {
        KeyCode::RightControl
    } else if number == 346 {
        KeyCode::RightAlt
    } else if number == 347 {
        KeyCode::RightSuper
    } else if number == 348 {
        KeyCode::Menu
    } else {
        KeyCode::Unknown
    }
}

impl KeyCode {
    /// The number that the window system gives the key.
    pub fn code(&self) -> (number: i32)
        ensures
            number == number_of_key(*self),
    {
        match self {
            KeyCode::Space => 32,
            KeyCode::Apostrophe => 39,
            KeyCode::Comma => 44,
            KeyCode::Minus => 45,
            KeyCode::Period => 46,
            KeyCode::Slash => 47,
            KeyCode::Num0 => 48,
            KeyCode::Num1 => 49,
            KeyCode::Num2 => 50,
            KeyCode::Num3 => 51,
            KeyCode::Num4 => 52,
            KeyCode::Num5 => 53,
            KeyCode::Num6 => 54,
            KeyCode::Num7 => 55,
            KeyCode::Num8 => 56,
            KeyCode::Num9 => 57,
            KeyCode::Semicolon => 59,
            KeyCode::Equal => 61,
            KeyCode::A => 65,
            KeyCode::B => 66,
            KeyCode::C => 67,
            KeyCode::D => 68,
            KeyCode::E => 69,
            KeyCode::F => 70,
            KeyCode::G => 71,
            KeyCode::H => 72,
            KeyCode::I => 73,
            KeyCode::J => 74,
            KeyCode::K => 75,
            KeyCode::L => 76,
            KeyCode::M => 77,
            KeyCode::N => 78,
            KeyCode::O => 79,
            KeyCode::P => 80,
            KeyCode::Q => 81,
            KeyCode::R => 82,
            KeyCode::S => 83,
            KeyCode::T => 84,
            KeyCode::U => 85,
            KeyCode::V => 86,
            KeyCode::W => 87,
            KeyCode::X => 88,
            KeyCode::Y => 89,
            KeyCode::Z => 90,
            KeyCode::LeftBracket => 91,
            KeyCode::Backslash => 92,
            KeyCode::RightBracket => 93,
            KeyCode::GraveAccent => 96,
            KeyCode::World1 => 161,
            KeyCode::World2 => 162,
            KeyCode::Escape => 256,
            KeyCode::Enter => 257,
            KeyCode::Tab => 258,
            KeyCode::Backspace => 259,
            KeyCode::Insert => 260,
            KeyCode::Delete => 261,
            KeyCode::Right => 262,
            KeyCode::Left => 263,
            KeyCode::Down => 264,
            KeyCode::Up => 265,
            KeyCode::PageUp => 266,
            KeyCode::PageDown => 267,
            KeyCode::Home => 268,
            KeyCode::End => 269,
            KeyCode::CapsLock => 280,
            KeyCode::ScrollLock => 281,
            KeyCode::NumLock => 282,
            KeyCode::PrintScreen => 283,
            KeyCode::Pause => 284,
            KeyCode::F1 => 290,
            KeyCode::F2 => 291,
            KeyCode::F3 => 292,
            KeyCode::F4 => 293,
            KeyCode::F5 => 294,
            KeyCode::F6 => 295,
            KeyCode::F7 => 296,
            KeyCode::F8 => 297,
            KeyCode::F9 => 298,
            KeyCode::F10 => 299,
            KeyCode::F11 => 300,
            KeyCode::F12 => 301,
            KeyCode::F13 => 302,
            KeyCode::F14 => 303,
            KeyCode::F15 => 304,
            KeyCode::F16 => 305,
            KeyCode::F17 => 306,
            KeyCode::F18 => 307,
            KeyCode::F19 => 308,
            KeyCode::F20 => 309,
            KeyCode::F21 => 310,
            KeyCode::F22 => 311,
            KeyCode::F23 => 312,
            KeyCode::F24 => 313,
            KeyCode::F25 => 314,
            KeyCode::KeyPad0 => 320,
            KeyCode::KeyPad1 => 321,
            KeyCode::KeyPad2 => 322,
            KeyCode::KeyPad3 => 323,
            KeyCode::KeyPad4 => 324,
            KeyCode::KeyPad5 => 325,
            KeyCode::KeyPad6 => 326,
            KeyCode::KeyPad7 => 327,
            KeyCode::KeyPad8 => 328,
            KeyCode::KeyPad9 => 329,
            KeyCode::KeyPadDecimal => 330,
            KeyCode::KeyPadDivide => 331,
            KeyCode::KeyPadMultiply => 332,
            KeyCode::KeyPadSubtract => 333,
            KeyCode::KeyPadAdd => 334,
            KeyCode::KeyPadEnter => 335,
            KeyCode::KeyPadEqual => 336,
            KeyCode::LeftShift => 340,
            KeyCode::LeftControl => 341,
            KeyCode::LeftAlt => 342,
            KeyCode::LeftSuper => 343,
            KeyCode::RightShift => 344,
            KeyCode::RightControl => 345,
            KeyCode::RightAlt => 346,
            KeyCode::RightSuper => 347,
            KeyCode::Menu => 348,
            KeyCode::Unknown => -1,
        }
    }

    /// The key with this number, or the unknown key where no key has it.
    pub fn from_code(number: i32) -> (key: KeyCode)
        ensures
            key == key_of_number(number),
    {
        match number {
            32 => KeyCode::Space,
            39 => KeyCode::Apostrophe,
            44 => KeyCode::Comma,
            45 => KeyCode::Minus,
            46 => KeyCode::Period,
            47 => KeyCode::Slash,
            48 => KeyCode::Num0,
            49 => KeyCode::Num1,
            50 => KeyCode::Num2,
            51 => KeyCode::Num3,
            52 => KeyCode::Num4,
            53 => KeyCode::Num5,
            54 => KeyCode::Num6,
            55 => KeyCode::Num7,
            56 => KeyCode::Num8,
            57 => KeyCode::Num9,
            59 => KeyCode::Semicolon,
            61 => KeyCode::Equal,
            65 => KeyCode::A,
            66 => KeyCode::B,
            67 => KeyCode::C,
            68 => KeyCode::D,
            69 => KeyCode::E,
            70 => KeyCode::F,
            71 => KeyCode::G,
            72 => KeyCode::H,
            73 => KeyCode::I,
            74 => KeyCode::J,
            75 => KeyCode::K,
            76 => KeyCode::L,
            77 => KeyCode::M,
            78 => KeyCode::N,
            79 => KeyCode::O,
            80 => KeyCode::P,
            81 => KeyCode::Q,
            82 => KeyCode::R,
            83 => KeyCode::S,
            84 => KeyCode::T,
            85 => KeyCode::U,
            86 => KeyCode::V,
            87 => KeyCode::W,
            88 => KeyCode::X,
            89 => KeyCode::Y,
            90 => KeyCode::Z,
            91 => KeyCode::LeftBracket,
            92 => KeyCode::Backslash,
            93 => KeyCode::RightBracket,
            96 => KeyCode::GraveAccent,
            161 => KeyCode::World1,
            162 => KeyCode::World2,
            256 => KeyCode::Escape,
            257 => KeyCode::Enter,
            258 => KeyCode::Tab,
            259 => KeyCode::Backspace,
            260 => KeyCode::Insert,
            261 => KeyCode::Delete,
            262 => KeyCode::Right,
            263 => KeyCode::Left,
            264 => KeyCode::Down,
            265 => KeyCode::Up,
            266 => KeyCode::PageUp,
            267 => KeyCode::PageDown,
            268 => KeyCode::Home,
            269 => KeyCode::End,
            280 => KeyCode::CapsLock,
            281 => KeyCode::ScrollLock,
            282 => KeyCode::NumLock,
            283 => KeyCode::PrintScreen,
            284 => KeyCode::Pause,
            290 => KeyCode::F1,
            291 => KeyCode::F2,
            292 => KeyCode::F3,
            293 => KeyCode::F4,
            294 => KeyCode::F5,
            295 => KeyCode::F6,
            296 => KeyCode::F7,
            297 => KeyCode::F8,
            298 => KeyCode::F9,
            299 => KeyCode::F10,
            300 => KeyCode::F11,
            301 => KeyCode::F12,
            302 => KeyCode::F13,
            303 => KeyCode::F14,
            304 => KeyCode::F15,
            305 => KeyCode::F16,
            306 => KeyCode::F17,
            307 => KeyCode::F18,
            308 => KeyCode::F19,
            309 => KeyCode::F20,
            310 => KeyCode::F21,
            311 => KeyCode::F22,
            312 => KeyCode::F23,
            313 => KeyCode::F24,
            314 => KeyCode::F25,
            320 => KeyCode::KeyPad0,
            321 => KeyCode::KeyPad1,
            322 => KeyCode::KeyPad2,
            323 => KeyCode::KeyPad3,
            324 => KeyCode::KeyPad4,
            325 => KeyCode::KeyPad5,
            326 => KeyCode::KeyPad6,
            327 => KeyCode::KeyPad7,
            328 => KeyCode::KeyPad8,
            329 => KeyCode::KeyPad9,
            330 => KeyCode::KeyPadDecimal,
            331 => KeyCode::KeyPadDivide,
            332 => KeyCode::KeyPadMultiply,
            333 => KeyCode::KeyPadSubtract,
            334 => KeyCode::KeyPadAdd,
            335 => KeyCode::KeyPadEnter,
            336 => KeyCode::KeyPadEqual,
            340 => KeyCode::LeftShift,
            341 => KeyCode::LeftControl,
            342 => KeyCode::LeftAlt,
            343 => KeyCode::LeftSuper,
            344 => KeyCode::RightShift,
            345 => KeyCode::RightControl,
            346 => KeyCode::RightAlt,
            347 => KeyCode::RightSuper,
            348 => KeyCode::Menu,
            _ => KeyCode::Unknown,
        }
    }
}

/// A key's number leads back to the key: no two keys share a number.
pub proof fn lemma_key_number_roundtrip(key: KeyCode)
    ensures
        key_of_number(number_of_key(key)) == key,
{
}

/// A number leads to a key with that number, or, where no key has it, to
/// the unknown key.
pub proof fn lemma_number_key_roundtrip(number: i32)
    ensures
        number_of_key(key_of_number(number)) == number || key_of_number(number)
            == KeyCode::Unknown,
{
}

} // verus!
