//! Virtual-key codes of the host platform, under their symbolic names.
//!
//! The payload of `Event::Press` and `Event::Release` is one of these codes.

use vstd::prelude::*;

verus! {

pub const LBUTTON: usize = 0x01;
pub const RBUTTON: usize = 0x02;
pub const CANCEL: usize = 0x03;
pub const MBUTTON: usize = 0x04;
pub const XBUTTON1: usize = 0x05;
pub const XBUTTON2: usize = 0x06;
pub const BACK: usize = 0x08;
pub const TAB: usize = 0x09;
pub const CLEAR: usize = 0x0C;
pub const RETURN: usize = 0x0D;
pub const SHIFT: usize = 0x10;
pub const CONTROL: usize = 0x11;
pub const MENU: usize = 0x12;
pub const PAUSE: usize = 0x13;
pub const CAPITAL: usize = 0x14;
pub const HANGEUL: usize = 0x15;
pub const HANGUL: usize = 0x15;
pub const KANA: usize = 0x15;
pub const IME_ON: usize = 0x16;
pub const JUNJA: usize = 0x17;
pub const FINAL: usize = 0x18;
pub const HANJA: usize = 0x19;
pub const KANJI: usize = 0x19;
pub const IME_OFF: usize = 0x1A;
pub const ESCAPE: usize = 0x1B;
pub const CONVERT: usize = 0x1C;
pub const NONCONVERT: usize = 0x1D;
pub const ACCEPT: usize = 0x1E;
pub const MODECHANGE: usize = 0x1F;
pub const SPACE: usize = 0x20;
pub const PRIOR: usize = 0x21;
pub const NEXT: usize = 0x22;
pub const END: usize = 0x23;
pub const HOME: usize = 0x24;
pub const LEFT: usize = 0x25;
pub const UP: usize = 0x26;
pub const RIGHT: usize = 0x27;
pub const DOWN: usize = 0x28;
pub const SELECT: usize = 0x29;
pub const PRINT: usize = 0x2A;
pub const EXECUTE: usize = 0x2B;
pub const SNAPSHOT: usize = 0x2C;
pub const INSERT: usize = 0x2D;
pub const DELETE: usize = 0x2E;
pub const HELP: usize = 0x2F;
pub const NUM0: usize = 0x30;
pub const NUM1: usize = 0x31;
pub const NUM2: usize = 0x32;
pub const NUM3: usize = 0x33;
pub const NUM4: usize = 0x34;
pub const NUM5: usize = 0x35;
pub const NUM6: usize = 0x36;
pub const NUM7: usize = 0x37;
pub const NUM8: usize = 0x38;
pub const NUM9: usize = 0x39;
pub const A: usize = 0x41;
pub const B: usize = 0x42;
pub const C: usize = 0x43;
pub const D: usize = 0x44;
pub const E: usize = 0x45;
pub const F: usize = 0x46;
pub const G: usize = 0x47;
pub const H: usize = 0x48;
pub const I: usize = 0x49;
pub const J: usize = 0x4A;
pub const K: usize = 0x4B;
pub const L: usize = 0x4C;
pub const M: usize = 0x4D;
pub const N: usize = 0x4E;
pub const O: usize = 0x4F;
pub const P: usize = 0x50;
pub const Q: usize = 0x51;
pub const R: usize = 0x52;
pub const S: usize = 0x53;
pub const T: usize = 0x54;
pub const U: usize = 0x55;
pub const V: usize = 0x56;
pub const W: usize = 0x57;
pub const X: usize = 0x58;
pub const Y: usize = 0x59;
pub const Z: usize = 0x5A;
pub const LWIN: usize = 0x5B;
pub const RWIN: usize = 0x5C;
pub const APPS: usize = 0x5D;
pub const SLEEP: usize = 0x5F;
pub const NUMPAD0: usize = 0x60;
pub const NUMPAD1: usize = 0x61;
pub const NUMPAD2: usize = 0x62;
pub const NUMPAD3: usize = 0x63;
pub const NUMPAD4: usize = 0x64;
pub const NUMPAD5: usize = 0x65;
pub const NUMPAD6: usize = 0x66;
pub const NUMPAD7: usize = 0x67;
pub const NUMPAD8: usize = 0x68;
pub const NUMPAD9: usize = 0x69;
pub const MULTIPLY: usize = 0x6A;
pub const ADD: usize = 0x6B;
pub const SEPARATOR: usize = 0x6C;
pub const SUBTRACT: usize = 0x6D;
pub const DECIMAL: usize = 0x6E;
pub const DIVIDE: usize = 0x6F;
pub const F1: usize = 0x70;
pub const F2: usize = 0x71;
pub const F3: usize = 0x72;
pub const F4: usize = 0x73;
pub const F5: usize = 0x74;
pub const F6: usize = 0x75;
pub const F7: usize = 0x76;
pub const F8: usize = 0x77;
pub const F9: usize = 0x78;
pub const F10: usize = 0x79;
pub const F11: usize = 0x7A;
pub const F12: usize = 0x7B;
pub const F13: usize = 0x7C;
pub const F14: usize = 0x7D;
pub const F15: usize = 0x7E;
pub const F16: usize = 0x7F;
pub const F17: usize = 0x80;
pub const F18: usize = 0x81;
pub const F19: usize = 0x82;
pub const F20: usize = 0x83;
pub const F21: usize = 0x84;
pub const F22: usize = 0x85;
pub const F23: usize = 0x86;
pub const F24: usize = 0x87;
pub const NAVIGATION_VIEW: usize = 0x88;
pub const NAVIGATION_MENU: usize = 0x89;
pub const NAVIGATION_UP: usize = 0x8A;
pub const NAVIGATION_DOWN: usize = 0x8B;
pub const NAVIGATION_LEFT: usize = 0x8C;
pub const NAVIGATION_RIGHT: usize = 0x8D;
pub const NAVIGATION_ACCEPT: usize = 0x8E;
pub const NAVIGATION_CANCEL: usize = 0x8F;
pub const NUMLOCK: usize = 0x90;
pub const SCROLL: usize = 0x91;
pub const OEM_FJ_JISHO: usize = 0x92;
pub const OEM_NEC_EQUAL: usize = 0x92;
pub const OEM_FJ_MASSHOU: usize = 0x93;
pub const OEM_FJ_TOUROKU: usize = 0x94;
pub const OEM_FJ_LOYA: usize = 0x95;
pub const OEM_FJ_ROYA: usize = 0x96;
pub const LSHIFT: usize = 0xA0;
pub const RSHIFT: usize = 0xA1;
pub const LCONTROL: usize = 0xA2;
pub const RCONTROL: usize = 0xA3;
pub const LMENU: usize = 0xA4;
pub const RMENU: usize = 0xA5;
pub const BROWSER_BACK: usize = 0xA6;
pub const BROWSER_FORWARD: usize = 0xA7;
pub const BROWSER_REFRESH: usize = 0xA8;
pub const BROWSER_STOP: usize = 0xA9;
pub const BROWSER_SEARCH: usize = 0xAA;
pub const BROWSER_FAVORITES: usize = 0xAB;
pub const BROWSER_HOME: usize = 0xAC;
pub const VOLUME_MUTE: usize = 0xAD;
pub const VOLUME_DOWN: usize = 0xAE;
pub const VOLUME_UP: usize = 0xAF;
pub const MEDIA_NEXT_TRACK: usize = 0xB0;
pub const MEDIA_PREV_TRACK: usize = 0xB1;
pub const MEDIA_STOP: usize = 0xB2;
pub const MEDIA_PLAY_PAUSE: usize = 0xB3;
pub const LAUNCH_MAIL: usize = 0xB4;
pub const LAUNCH_MEDIA_SELECT: usize = 0xB5;
pub const LAUNCH_APP1: usize = 0xB6;
pub const LAUNCH_APP2: usize = 0xB7;
pub const OEM_1: usize = 0xBA;
pub const OEM_PLUS: usize = 0xBB;
pub const OEM_COMMA: usize = 0xBC;
pub const OEM_MINUS: usize = 0xBD;
pub const OEM_PERIOD: usize = 0xBE;
pub const OEM_2: usize = 0xBF;
pub const OEM_3: usize = 0xC0;
pub const ABNT_C1: usize = 0xC1;
pub const ABNT_C2: usize = 0xC2;
pub const GAMEPAD_A: usize = 0xC3;
pub const GAMEPAD_B: usize = 0xC4;
pub const GAMEPAD_X: usize = 0xC5;
pub const GAMEPAD_Y: usize = 0xC6;
pub const GAMEPAD_RIGHT_SHOULDER: usize = 0xC7;
pub const GAMEPAD_LEFT_SHOULDER: usize = 0xC8;
pub const GAMEPAD_LEFT_TRIGGER: usize = 0xC9;
pub const GAMEPAD_RIGHT_TRIGGER: usize = 0xCA;
pub const GAMEPAD_DPAD_UP: usize = 0xCB;
pub const GAMEPAD_DPAD_DOWN: usize = 0xCC;
pub const GAMEPAD_DPAD_LEFT: usize = 0xCD;
pub const GAMEPAD_DPAD_RIGHT: usize = 0xCE;
pub const GAMEPAD_MENU: usize = 0xCF;
pub const GAMEPAD_VIEW: usize = 0xD0;
pub const GAMEPAD_LEFT_THUMBSTICK_BUTTON: usize = 0xD1;
pub const GAMEPAD_RIGHT_THUMBSTICK_BUTTON: usize = 0xD2;
pub const GAMEPAD_LEFT_THUMBSTICK_UP: usize = 0xD3;
pub const GAMEPAD_LEFT_THUMBSTICK_DOWN: usize = 0xD4;
pub const GAMEPAD_LEFT_THUMBSTICK_RIGHT: usize = 0xD5;
pub const GAMEPAD_LEFT_THUMBSTICK_LEFT: usize = 0xD6;
pub const GAMEPAD_RIGHT_THUMBSTICK_UP: usize = 0xD7;
pub const GAMEPAD_RIGHT_THUMBSTICK_DOWN: usize = 0xD8;
pub const GAMEPAD_RIGHT_THUMBSTICK_RIGHT: usize = 0xD9;
pub const GAMEPAD_RIGHT_THUMBSTICK_LEFT: usize = 0xDA;
pub const OEM_4: usize = 0xDB;
pub const OEM_5: usize = 0xDC;
pub const OEM_6: usize = 0xDD;
pub const OEM_7: usize = 0xDE;
pub const OEM_8: usize = 0xDF;
pub const OEM_AX: usize = 0xE1;
pub const OEM_102: usize = 0xE2;
pub const ICO_HELP: usize = 0xE3;
pub const ICO_00: usize = 0xE4;
pub const PROCESSKEY: usize = 0xE5;
pub const ICO_CLEAR: usize = 0xE6;
pub const PACKET: usize = 0xE7;
pub const OEM_RESET: usize = 0xE9;
pub const OEM_JUMP: usize = 0xEA;
pub const OEM_PA1: usize = 0xEB;
pub const OEM_PA2: usize = 0xEC;
pub const OEM_PA3: usize = 0xED;
pub const OEM_WSCTRL: usize = 0xEE;
pub const OEM_CUSEL: usize = 0xEF;
pub const DBE_ALPHANUMERIC: usize = 0xF0;
pub const OEM_ATTN: usize = 0xF0;
pub const DBE_KATAKANA: usize = 0xF1;
pub const OEM_FINISH: usize = 0xF1;
pub const DBE_HIRAGANA: usize = 0xF2;
pub const OEM_COPY: usize = 0xF2;
pub const DBE_SBCSCHAR: usize = 0xF3;
pub const OEM_AUTO: usize = 0xF3;
pub const DBE_DBCSCHAR: usize = 0xF4;
pub const OEM_ENLW: usize = 0xF4;
pub const DBE_ROMAN: usize = 0xF5;
pub const OEM_BACKTAB: usize = 0xF5;
pub const ATTN: usize = 0xF6;
pub const DBE_NOROMAN: usize = 0xF6;
pub const CRSEL: usize = 0xF7;
pub const DBE_ENTERWORDREGISTERMODE: usize = 0xF7;
pub const DBE_ENTERIMECONFIGMODE: usize = 0xF8;
pub const EXSEL: usize = 0xF8;
pub const DBE_FLUSHSTRING: usize = 0xF9;
pub const EREOF: usize = 0xF9;
pub const DBE_CODEINPUT: usize = 0xFA;
pub const PLAY: usize = 0xFA;
pub const DBE_NOCODEINPUT: usize = 0xFB;
pub const ZOOM: usize = 0xFB;
pub const DBE_DETERMINESTRING: usize = 0xFC;
pub const NONAME: usize = 0xFC;
pub const DBE_ENTERDLGCONVERSIONMODE: usize = 0xFD;
pub const PA1: usize = 0xFD;
pub const OEM_CLEAR: usize = 0xFE;

} // verus!
