use mfa_service::config::{Config, RawEnv};
use mfa_service::error::{AppError, ValidationFailure};
use mfa_service::handlers::{
    generate_otp, generate_random_otp, issue_token_at, verify_otp, FlowStep, GenerateAction, GenerateEvent, GenerateOtp,
};
use mfa_service::models::{GenerateOtpRequest, VerifyOtpRequest};
use mfa_service::services::redis::{StoreCommand, StoreReply};

// An RSA key pair made for these tests only (PKCS#1 private key and
// SubjectPublicKeyInfo public key, DER), wrapped in PEM at run time.
const TEST_KEY_DER: &[u8] = &[
    0x30, 0x82, 0x04, 0xa2, 0x02, 0x01, 0x00, 0x02, 0x82, 0x01, 0x01, 0x00, 0xc0, 0x1c, 0x97, 0x70,
    0x41, 0x3d, 0x9e, 0x4d, 0xfc, 0xf2, 0xa7, 0x54, 0xb4, 0x35, 0x3b, 0x04, 0xf9, 0x00, 0x32, 0xbe,
    0x8d, 0xd8, 0xeb, 0xb7, 0xdb, 0x13, 0xb6, 0xc7, 0x52, 0xc6, 0x57, 0x09, 0x1c, 0xa5, 0xba, 0x40,
    0x8f, 0x71, 0xfc, 0x58, 0xa9, 0xb8, 0x36, 0xeb, 0x6d, 0x34, 0x0f, 0x7a, 0x42, 0xdd, 0x6f, 0x0e,
    0x68, 0x8a, 0xe4, 0x60, 0x38, 0x45, 0x23, 0x64, 0x32, 0x37, 0x11, 0x2b, 0xf4, 0xab, 0xf2, 0x2f,
    0xa0, 0x3f, 0xc7, 0xe0, 0x3e, 0x43, 0x52, 0xb5, 0xbc, 0x3d, 0xfd, 0x86, 0x39, 0x2d, 0xf7, 0x00,
    0x72, 0xc1, 0x7c, 0x3d, 0x20, 0x53, 0x12, 0x3a, 0xaa, 0x3b, 0x4f, 0x8a, 0x48, 0x5e, 0x0e, 0x7c,
    0x9d, 0xac, 0x53, 0x40, 0x6e, 0xfc, 0xb2, 0x00, 0x9f, 0xb0, 0xc9, 0x33, 0x99, 0x47, 0x96, 0x4a,
    0xb4, 0x95, 0x5c, 0xbe, 0x14, 0xf0, 0x96, 0xdd, 0x2e, 0x08, 0xa3, 0xaf, 0xc8, 0xe8, 0xc9, 0x8f,
    0x2e, 0x3c, 0xda, 0x31, 0x47, 0x8a, 0x59, 0x2c, 0xad, 0x6d, 0x1c, 0xe2, 0x1e, 0xee, 0xfb, 0x8a,
    0x17, 0xdf, 0xf2, 0x51, 0x01, 0x32, 0x30, 0xd7, 0xbf, 0x8c, 0x3e, 0xa8, 0x6b, 0xf9, 0x83, 0x5f,
    0x49, 0x9d, 0x5c, 0x33, 0x6f, 0x2d, 0x3f, 0x93, 0x39, 0xa5, 0xdd, 0x40, 0x33, 0xb0, 0x22, 0xba,
    0x9a, 0x18, 0x8d, 0x12, 0xbb, 0xb8, 0xbe, 0x62, 0xba, 0xcb, 0x16, 0x59, 0xa2, 0x05, 0x1f, 0x8b,
    0x33, 0x8f, 0x06, 0x31, 0x25, 0x1f, 0x11, 0xfb, 0x2d, 0x8f, 0x0c, 0x53, 0x99, 0x8a, 0xf9, 0xf4,
    0x50, 0xd6, 0xaf, 0x02, 0xa7, 0xde, 0xe8, 0xfe, 0x2e, 0x16, 0x9d, 0x6c, 0xcd, 0x2d, 0xde, 0x44,
    0x7b, 0x65, 0xf3, 0x32, 0xfc, 0x51, 0x15, 0x08, 0x9c, 0xeb, 0x8b, 0x61, 0xc6, 0x0c, 0x4f, 0xd6,
    0xa4, 0xc9, 0xee, 0x8b, 0x3c, 0xd8, 0xc0, 0x56, 0xb6, 0x17, 0xcc, 0x33, 0x02, 0x03, 0x01, 0x00,
    0x01, 0x02, 0x82, 0x01, 0x00, 0x4b, 0xe2, 0x3f, 0x53, 0x61, 0x01, 0xd4, 0xe9, 0x1b, 0x54, 0x42,
    0x12, 0x6c, 0x48, 0x66, 0x72, 0xb5, 0x64, 0x85, 0xa6, 0xcd, 0x62, 0xf4, 0xe1, 0x1f, 0xd1, 0x2e,
    0xae, 0x97, 0x1c, 0xaf, 0x3e, 0x73, 0x29, 0x67, 0x63, 0x9f, 0x05, 0xb8, 0x56, 0xd1, 0x5b, 0x69,
    0x9e, 0x1e, 0xf9, 0xa4, 0x6f, 0x77, 0xbf, 0xfd, 0xe1, 0x24, 0x1c, 0x50, 0xcf, 0x4d, 0x0a, 0xca,
    0x4b, 0x06, 0xa6, 0xc7, 0xca, 0xa4, 0x0f, 0xd3, 0x4f, 0x4a, 0xae, 0x46, 0xe6, 0x65, 0xd1, 0xb3,
    0xf7, 0x03, 0x4f, 0x3d, 0x38, 0x6a, 0x97, 0xa4, 0x6c, 0x71, 0xe7, 0xc9, 0x8a, 0x5f, 0x9d, 0x50,
    0xa3, 0x09, 0xa0, 0xf9, 0xef, 0x36, 0x5c, 0xa8, 0xbe, 0x42, 0x8d, 0xd2, 0x28, 0xae, 0x6e, 0x74,
    0x65, 0x58, 0xae, 0xbd, 0x1a, 0xfb, 0x9d, 0xd2, 0x58, 0xd9, 0xf1, 0xf1, 0xbb, 0x47, 0x8c, 0x2d,
    0x1b, 0x5a, 0xd6, 0xa0, 0xc8, 0xdc, 0x03, 0x83, 0xea, 0x70, 0x4b, 0x2b, 0x99, 0x36, 0xf9, 0x15,
    0xe9, 0x76, 0xff, 0x97, 0x6c, 0xcd, 0x96, 0xa5, 0x29, 0x20, 0xb5, 0x0f, 0x28, 0x22, 0xfb, 0xcf,
    0x3b, 0x99, 0xe0, 0xc9, 0x44, 0xf6, 0xcb, 0x13, 0x01, 0xcb, 0x23, 0xc6, 0xe3, 0x8e, 0xcc, 0x54,
    0x3c, 0x1c, 0x7f, 0xdd, 0xa2, 0x72, 0xbc, 0x9b, 0xf4, 0xc7, 0x46, 0xd0, 0x3d, 0x69, 0x6f, 0x6b,
    0xd1, 0x05, 0xbe, 0xfe, 0x22, 0x38, 0xb2, 0xb9, 0xbc, 0xcb, 0xeb, 0xa8, 0x46, 0x12, 0xb9, 0x97,
    0xbd, 0x93, 0x78, 0xbc, 0xb9, 0xc2, 0x52, 0xce, 0x01, 0x41, 0xa9, 0x2c, 0x88, 0x73, 0x16, 0xe4,
    0x88, 0x50, 0x22, 0xa7, 0xf1, 0x45, 0x29, 0x3b, 0x63, 0xfa, 0xd5, 0xe5, 0xb3, 0xb0, 0xed, 0xdf,
    0x14, 0xe2, 0x4d, 0x67, 0x15, 0xf4, 0x8a, 0x9f, 0x95, 0x29, 0x7c, 0x71, 0xaf, 0x9f, 0x89, 0xa6,
    0x5e, 0xdb, 0xcf, 0x23, 0xb1, 0x02, 0x81, 0x81, 0x00, 0xf0, 0x24, 0x05, 0x04, 0x9a, 0x28, 0xfe,
    0x91, 0xf3, 0x99, 0xc2, 0x68, 0xe5, 0xa1, 0x73, 0xd1, 0x05, 0x3a, 0xa5, 0xd1, 0x7f, 0xbc, 0x34,
    0x56, 0xd9, 0x80, 0x06, 0xe1, 0x54, 0x99, 0x7f, 0xa0, 0x97, 0x85, 0xf2, 0x70, 0x57, 0xd3, 0xd0,
    0x1e, 0x06, 0x5c, 0xc2, 0x16, 0xc0, 0x7e, 0x81, 0xcb, 0xb0, 0x9f, 0x85, 0xf3, 0x68, 0xd3, 0xa8,
    0x7c, 0xac, 0x12, 0xc4, 0x14, 0xd5, 0x33, 0x1b, 0x26, 0x14, 0x15, 0xbe, 0x0e, 0x29, 0xbd, 0xc2,
    0x2a, 0xb6, 0x86, 0xee, 0x92, 0xc7, 0x28, 0x8f, 0xca, 0xe7, 0x1b, 0xb3, 0x3c, 0x3f, 0x20, 0xcb,
    0x1a, 0x61, 0x1b, 0x74, 0xee, 0xdf, 0xbd, 0xa1, 0xad, 0x78, 0xce, 0x52, 0x9e, 0x74, 0x7f, 0xcc,
    0x2f, 0x9f, 0xdc, 0xf6, 0x45, 0x38, 0x6a, 0xfa, 0xa3, 0x24, 0x2f, 0xb8, 0x21, 0xa1, 0x40, 0x29,
    0x90, 0x7a, 0x46, 0x25, 0xb1, 0x7e, 0x80, 0x80, 0x1b, 0x02, 0x81, 0x81, 0x00, 0xcc, 0xcc, 0x8f,
    0xa2, 0x89, 0xa8, 0x85, 0xb6, 0x2f, 0x98, 0x21, 0xbb, 0x37, 0xa4, 0x1e, 0x95, 0xda, 0x1c, 0xe5,
    0x27, 0xc2, 0x64, 0xdf, 0x8f, 0x08, 0xda, 0x2e, 0xdf, 0x97, 0xb1, 0x56, 0x88, 0xda, 0x50, 0xb8,
    0x04, 0x3b, 0xfd, 0x5d, 0xb0, 0xbd, 0xbb, 0xc8, 0x31, 0xbb, 0xdb, 0x2e, 0x0f, 0x96, 0xf6, 0x15,
    0x39, 0x52, 0x15, 0xd5, 0xd6, 0xd9, 0x19, 0xfe, 0x9c, 0x8f, 0x31, 0x31, 0xdd, 0xcc, 0x2a, 0xfc,
    0xfa, 0xe1, 0x86, 0x4d, 0xde, 0x13, 0x10, 0x53, 0x84, 0x4b, 0x8e, 0xe1, 0xb1, 0xe5, 0x08, 0x23,
    0xa4, 0x43, 0xb9, 0xb9, 0xaf, 0x38, 0x48, 0x4c, 0x3e, 0x7d, 0x89, 0xf1, 0x97, 0x8b, 0x69, 0x42,
    0xd5, 0x2f, 0x9d, 0x22, 0xb7, 0x26, 0x34, 0xc5, 0x30, 0x9d, 0x40, 0xcb, 0xe3, 0x55, 0xa3, 0xf2,
    0x48, 0xa5, 0xe4, 0x57, 0xa2, 0x7c, 0xc8, 0x48, 0x80, 0x4f, 0x23, 0x15, 0xc9, 0x02, 0x81, 0x80,
    0x44, 0x7a, 0x00, 0xf4, 0x4f, 0x01, 0x61, 0x96, 0x3c, 0xe0, 0x9b, 0x8f, 0x4d, 0xeb, 0xbc, 0x1a,
    0xde, 0x62, 0xda, 0xe5, 0xe2, 0x86, 0xc8, 0x65, 0xfb, 0x9f, 0x86, 0x56, 0xba, 0xc9, 0x0a, 0x9b,
    0xc0, 0x99, 0x71, 0x88, 0x97, 0x82, 0xce, 0xd5, 0xc0, 0xfa, 0xb2, 0x5d, 0xca, 0x86, 0x48, 0x7c,
    0xcc, 0xe0, 0xb0, 0x51, 0xb8, 0x92, 0xa2, 0x78, 0xea, 0x98, 0x6f, 0x51, 0x81, 0x7a, 0x11, 0x43,
    0xca, 0x76, 0x68, 0xbb, 0xa1, 0x2b, 0x7b, 0x32, 0xb2, 0xd9, 0xc7, 0x2e, 0x13, 0x9c, 0x7d, 0x64,
    0x5e, 0x82, 0x87, 0x99, 0xa6, 0x66, 0xb3, 0x83, 0xd2, 0x2d, 0x02, 0x2b, 0x1b, 0xa1, 0xf7, 0x78,
    0x7f, 0xfa, 0x55, 0x94, 0xd9, 0xa3, 0x97, 0x95, 0xfd, 0x00, 0x05, 0x39, 0xb7, 0xdc, 0xc9, 0x9b,
    0xbb, 0xb5, 0xdf, 0xcb, 0xb7, 0x2f, 0x94, 0xaa, 0x9e, 0x33, 0x62, 0x8c, 0x3a, 0x86, 0x6a, 0x01,
    0x02, 0x81, 0x80, 0x1c, 0x63, 0xdb, 0x21, 0x80, 0x0d, 0xc1, 0x83, 0x70, 0xf3, 0x98, 0xf1, 0x78,
    0x14, 0x23, 0x3d, 0x48, 0xc0, 0x2a, 0xb0, 0x29, 0x4d, 0x8c, 0x84, 0x2a, 0x88, 0xfc, 0x68, 0x78,
    0x81, 0xd7, 0xea, 0x1e, 0xc1, 0x83, 0xd0, 0xea, 0x74, 0x04, 0x11, 0xe5, 0x2b, 0x6b, 0xe4, 0x21,
    0x13, 0x90, 0x3e, 0x0f, 0x02, 0x4c, 0x0c, 0xe7, 0x29, 0x29, 0xbc, 0x9f, 0xd9, 0xef, 0xa6, 0xca,
    0x5e, 0xda, 0x77, 0xd1, 0xbe, 0xbf, 0xd5, 0x13, 0x80, 0x67, 0xb8, 0xfa, 0x51, 0x90, 0x12, 0x4d,
    0xdb, 0x1f, 0xc4, 0x66, 0x68, 0x8b, 0x70, 0x51, 0x07, 0x25, 0x0b, 0x7a, 0x34, 0xe3, 0x84, 0xe2,
    0x28, 0x46, 0x3a, 0x68, 0xd4, 0x0d, 0xb4, 0xb9, 0xe6, 0x01, 0x92, 0xfc, 0x13, 0xe2, 0xa6, 0x0b,
    0x96, 0x98, 0xed, 0x09, 0xc9, 0x31, 0x64, 0x0a, 0xc3, 0x2d, 0xb6, 0xd3, 0xaf, 0x7c, 0x05, 0x75,
    0x72, 0xfa, 0xa9, 0x02, 0x81, 0x80, 0x08, 0xb2, 0x7f, 0xcf, 0x45, 0x55, 0xd1, 0x3c, 0xba, 0x07,
    0x76, 0xa6, 0xdd, 0x79, 0x4e, 0x54, 0xc0, 0x40, 0xd5, 0x83, 0xaa, 0xa4, 0xa0, 0x88, 0x87, 0xe3,
    0x85, 0x6f, 0xde, 0x68, 0x5e, 0xca, 0xf0, 0x15, 0x1e, 0x32, 0x7f, 0x15, 0x28, 0xfe, 0xd0, 0x6c,
    0xaf, 0xcb, 0x82, 0xc2, 0x4c, 0xe4, 0x5a, 0x82, 0xe8, 0xf0, 0x2c, 0x59, 0xeb, 0x4b, 0x68, 0xe2,
    0xed, 0x5a, 0xc2, 0x14, 0x8f, 0xbd, 0x01, 0xce, 0xba, 0x0f, 0x31, 0xdf, 0x63, 0x03, 0x38, 0x4d,
    0xdc, 0xad, 0x93, 0x82, 0x08, 0x31, 0xae, 0xba, 0xb5, 0x39, 0x95, 0xc4, 0x82, 0xb4, 0xbd, 0x33,
    0x68, 0x9c, 0x29, 0x4a, 0x37, 0xe1, 0xc7, 0x12, 0x1c, 0xdc, 0x40, 0x57, 0xb9, 0x8c, 0xdc, 0x71,
    0xce, 0xab, 0x85, 0x4b, 0x97, 0x0e, 0x5b, 0xd0, 0xfb, 0x93, 0xbf, 0xa5, 0x7f, 0x92, 0x7c, 0xe6,
    0x3f, 0xe1, 0x23, 0x95, 0xdb, 0x95,
];
const TEST_PUBLIC_DER: &[u8] = &[
    0x30, 0x82, 0x01, 0x22, 0x30, 0x0d, 0x06, 0x09, 0x2a, 0x86, 0x48, 0x86, 0xf7, 0x0d, 0x01, 0x01,
    0x01, 0x05, 0x00, 0x03, 0x82, 0x01, 0x0f, 0x00, 0x30, 0x82, 0x01, 0x0a, 0x02, 0x82, 0x01, 0x01,
    0x00, 0xc0, 0x1c, 0x97, 0x70, 0x41, 0x3d, 0x9e, 0x4d, 0xfc, 0xf2, 0xa7, 0x54, 0xb4, 0x35, 0x3b,
    0x04, 0xf9, 0x00, 0x32, 0xbe, 0x8d, 0xd8, 0xeb, 0xb7, 0xdb, 0x13, 0xb6, 0xc7, 0x52, 0xc6, 0x57,
    0x09, 0x1c, 0xa5, 0xba, 0x40, 0x8f, 0x71, 0xfc, 0x58, 0xa9, 0xb8, 0x36, 0xeb, 0x6d, 0x34, 0x0f,
    0x7a, 0x42, 0xdd, 0x6f, 0x0e, 0x68, 0x8a, 0xe4, 0x60, 0x38, 0x45, 0x23, 0x64, 0x32, 0x37, 0x11,
    0x2b, 0xf4, 0xab, 0xf2, 0x2f, 0xa0, 0x3f, 0xc7, 0xe0, 0x3e, 0x43, 0x52, 0xb5, 0xbc, 0x3d, 0xfd,
    0x86, 0x39, 0x2d, 0xf7, 0x00, 0x72, 0xc1, 0x7c, 0x3d, 0x20, 0x53, 0x12, 0x3a, 0xaa, 0x3b, 0x4f,
    0x8a, 0x48, 0x5e, 0x0e, 0x7c, 0x9d, 0xac, 0x53, 0x40, 0x6e, 0xfc, 0xb2, 0x00, 0x9f, 0xb0, 0xc9,
    0x33, 0x99, 0x47, 0x96, 0x4a, 0xb4, 0x95, 0x5c, 0xbe, 0x14, 0xf0, 0x96, 0xdd, 0x2e, 0x08, 0xa3,
    0xaf, 0xc8, 0xe8, 0xc9, 0x8f, 0x2e, 0x3c, 0xda, 0x31, 0x47, 0x8a, 0x59, 0x2c, 0xad, 0x6d, 0x1c,
    0xe2, 0x1e, 0xee, 0xfb, 0x8a, 0x17, 0xdf, 0xf2, 0x51, 0x01, 0x32, 0x30, 0xd7, 0xbf, 0x8c, 0x3e,
    0xa8, 0x6b, 0xf9, 0x83, 0x5f, 0x49, 0x9d, 0x5c, 0x33, 0x6f, 0x2d, 0x3f, 0x93, 0x39, 0xa5, 0xdd,
    0x40, 0x33, 0xb0, 0x22, 0xba, 0x9a, 0x18, 0x8d, 0x12, 0xbb, 0xb8, 0xbe, 0x62, 0xba, 0xcb, 0x16,
    0x59, 0xa2, 0x05, 0x1f, 0x8b, 0x33, 0x8f, 0x06, 0x31, 0x25, 0x1f, 0x11, 0xfb, 0x2d, 0x8f, 0x0c,
    0x53, 0x99, 0x8a, 0xf9, 0xf4, 0x50, 0xd6, 0xaf, 0x02, 0xa7, 0xde, 0xe8, 0xfe, 0x2e, 0x16, 0x9d,
    0x6c, 0xcd, 0x2d, 0xde, 0x44, 0x7b, 0x65, 0xf3, 0x32, 0xfc, 0x51, 0x15, 0x08, 0x9c, 0xeb, 0x8b,
    0x61, 0xc6, 0x0c, 0x4f, 0xd6, 0xa4, 0xc9, 0xee, 0x8b, 0x3c, 0xd8, 0xc0, 0x56, 0xb6, 0x17, 0xcc,
    0x33, 0x02, 0x03, 0x01, 0x00, 0x01,
];

fn base64(data: &[u8]) -> String {
    const ALPHABET: &[u8; 64] = b"ABCDEFGHIJKLMNOPQRSTUVWXYZabcdefghijklmnopqrstuvwxyz0123456789+/";
    let mut out = String::new();
    for chunk in data.chunks(3) {
        let b = [chunk[0], *chunk.get(1).unwrap_or(&0), *chunk.get(2).unwrap_or(&0)];
        let n = (u32::from(b[0]) << 16) | (u32::from(b[1]) << 8) | u32::from(b[2]);
        for k in 0..4 {
            if k <= chunk.len() {
                out.push(ALPHABET[((n >> (18 - 6 * k)) & 63) as usize] as char);
            } else {
                out.push('=');
            }
        }
    }
    out
}

fn pem(label: &str, der: &[u8]) -> String {
    let body = base64(der);
    let mut text = format!("-----BEGIN {} KEY-----\n", label);
    for line in body.as_bytes().chunks(64) {
        text.push_str(std::str::from_utf8(line).unwrap());
        text.push('\n');
    }
    text.push_str(&format!("-----END {} KEY-----\n", label));
    text
}

fn private_key() -> Vec<u8> {
    pem(&["RSA PRIV", "ATE"].concat(), TEST_KEY_DER).into_bytes()
}

fn public_key() -> String {
    pem("PUBLIC", TEST_PUBLIC_DER)
}

fn config() -> Config {
    let raw = RawEnv {
        port: None,
        redis_url: Some("redis://127.0.0.1:6379".into()),
        smtp_host: Some("localhost".into()),
        smtp_port: None,
        smtp_user: None,
        smtp_password: None,
        smtp_use_tls: None,
        from_address: None,
        smtp_from: None,
        jwt_private_key_path: None,
        jwt_public_key_path: None,
        jwt_expiration_hours: None,
        otp_expiration_minutes: None,
        otp_length: None,
        rate_limit_reset_hours: None,
        max_verify_attempts: None,
        rate_limit_base_delay_seconds: None,
    };
    Config::from_raw(&raw)
}

#[test]
fn random_codes_have_the_configured_length() {
    for len in [0usize, 1, 6, 12] {
        let code = generate_random_otp(len);
        assert_eq!(code.len(), len);
        assert!(code.chars().all(|c| c.is_ascii_digit()));
    }
    let codes: std::collections::HashSet<String> = (0..50).map(|_| generate_random_otp(12)).collect();
    assert!(codes.len() > 1);
}

fn claims_of(token: &str) -> serde_json::Value {
    let key = jsonwebtoken::DecodingKey::from_rsa_pem(public_key().as_bytes()).unwrap();
    let mut validation = jsonwebtoken::Validation::new(jsonwebtoken::Algorithm::RS256);
    validation.validate_exp = false;
    jsonwebtoken::decode::<serde_json::Value>(token, &key, &validation).unwrap().claims
}

#[test]
fn token_carries_subject_and_expiry() {
    let reply = match issue_token_at("user@example.com", 1_700_000_000, 24, &private_key()) {
        Ok(reply) => reply,
        Err(e) => panic!("no token: {:?}", e),
    };
    assert_eq!(reply.message, "OTP verified successfully");
    assert_eq!(reply.token.split('.').count(), 3);
    let claims = claims_of(&reply.token);
    assert_eq!(claims["sub"], "user@example.com");
    assert_eq!(claims["exp"], 1_700_000_000u64 + 24 * 3600);
    let payload = reply.token.split('.').nth(1).unwrap();
    let again = issue_token_at("user@example.com", 1_700_000_000, 24, &private_key()).ok().unwrap();
    assert_eq!(again.token.split('.').nth(1).unwrap(), payload);
}

#[test]
fn token_errors_are_internal() {
    match issue_token_at("user@example.com", 0, 1, b"not a key") {
        Err(AppError::InternalError(_)) => {}
        _ => panic!("expected an internal error"),
    }
    match issue_token_at("user@example.com", 0, u64::MAX / 2, &private_key()) {
        Err(AppError::InternalError(_)) => {}
        _ => panic!("expected an internal error"),
    }
}

#[test]
fn generate_rejects_invalid_address() {
    let req = GenerateOtpRequest { email: "not-an-email".into() };
    match generate_otp(&req, &config()) {
        FlowStep::Finished(Err(AppError::ValidationError(ValidationFailure::InvalidEmail { value }))) => {
            assert_eq!(value, "not-an-email")
        }
        _ => panic!(),
    }
}

fn store_cmd(step: FlowStep<GenerateOtp, mfa_service::models::GenerateOtpResponse, GenerateAction>) -> (GenerateOtp, StoreCommand) {
    match step {
        FlowStep::Continue(f, GenerateAction::Store(c)) => (f, c),
        _ => panic!("expected a store command"),
    }
}

#[test]
fn generate_runs_to_the_email_and_answers() {
    let req = GenerateOtpRequest { email: "user@example.com".into() };
    let (flow, cmd) = store_cmd(generate_otp(&req, &config()));
    assert!(matches!(&cmd, StoreCommand::SetIfAbsent { key, seconds: 30, .. } if key == "ratelimit:cooldown:user@example.com"));
    let (flow, _) = store_cmd(flow.step(GenerateEvent::Store(StoreReply::Claimed(true))));
    let (flow, cmd) = store_cmd(flow.step(GenerateEvent::Store(StoreReply::Count(2))));
    assert!(matches!(cmd, StoreCommand::Expire { seconds: 86400, .. }));
    let (flow, _) = store_cmd(flow.step(GenerateEvent::Store(StoreReply::Done)));
    let (flow, cmd) = store_cmd(flow.step(GenerateEvent::Store(StoreReply::Done)));
    let stored = match &cmd {
        StoreCommand::SetWithExpiry { key, value, seconds } => {
            assert_eq!(key, "otp:user@example.com");
            assert_eq!(*seconds, 600);
            assert_eq!(value.len(), 6);
            value.clone()
        }
        _ => panic!(),
    };
    let flow = match flow.step(GenerateEvent::Store(StoreReply::Done)) {
        FlowStep::Continue(f, GenerateAction::SendEmail { to, otp, expiration_minutes }) => {
            assert_eq!(to, "user@example.com");
            assert_eq!(otp, stored);
            assert_eq!(expiration_minutes, 10);
            f
        }
        _ => panic!(),
    };
    match flow.step(GenerateEvent::EmailSent(Ok(()))) {
        FlowStep::Finished(Ok(r)) => {
            assert_eq!(r.message, "OTP sent successfully");
            assert_eq!(r.expires_in_minutes, 10);
            assert_eq!(r.retry_after_seconds, 60);
        }
        _ => panic!(),
    }
}

#[test]
fn generate_refused_during_cooldown_and_on_email_failure() {
    let req = GenerateOtpRequest { email: "user@example.com".into() };
    let (flow, _) = store_cmd(generate_otp(&req, &config()));
    let (flow, cmd) = store_cmd(flow.step(GenerateEvent::Store(StoreReply::Claimed(false))));
    assert!(matches!(cmd, StoreCommand::Ttl { .. }));
    assert!(matches!(
        flow.step(GenerateEvent::Store(StoreReply::Ttl(30))),
        FlowStep::Finished(Err(AppError::RateLimited { reset_in_seconds: 30 }))
    ));
    let (flow, _) = store_cmd(generate_otp(&req, &config()));
    let (flow, _) = store_cmd(flow.step(GenerateEvent::Store(StoreReply::Claimed(true))));
    let (flow, _) = store_cmd(flow.step(GenerateEvent::Store(StoreReply::Count(1))));
    let (flow, _) = store_cmd(flow.step(GenerateEvent::Store(StoreReply::Done)));
    let (flow, _) = store_cmd(flow.step(GenerateEvent::Store(StoreReply::Done)));
    let flow = match flow.step(GenerateEvent::Store(StoreReply::Done)) {
        FlowStep::Continue(f, GenerateAction::SendEmail { .. }) => f,
        _ => panic!(),
    };
    match flow.step(GenerateEvent::EmailSent(Err(AppError::EmailError("down".into())))) {
        FlowStep::Finished(Err(AppError::EmailError(m))) => assert_eq!(m, "down"),
        _ => panic!(),
    }
}

#[test]
fn verify_checks_the_store_then_issues_a_token() {
    let req = VerifyOtpRequest { email: "user@example.com".into(), code: "123456".into() };
    let (flow, cmd) = match verify_otp(&req, &config(), &private_key()) {
        FlowStep::Continue(f, c) => (f, c),
        _ => panic!(),
    };
    assert!(matches!(&cmd, StoreCommand::Increment { key } if key == "ratelimit:verify:user@example.com"));
    let replies = [
        StoreReply::Count(1),
        StoreReply::Done,
        StoreReply::MaybeText(Some("123456".into())),
        StoreReply::Done,
    ];
    let mut flow = flow;
    for reply in replies {
        flow = match flow.step(reply) {
            FlowStep::Continue(f, _) => f,
            _ => panic!(),
        };
    }
    match flow.step(StoreReply::Done) {
        FlowStep::Finished(Ok(r)) => {
            let claims = claims_of(&r.token);
            assert_eq!(claims["sub"], "user@example.com");
            let now = chrono::Utc::now().timestamp();
            let exp = claims["exp"].as_i64().unwrap();
            assert!(exp >= now + 24 * 3600 - 5 && exp <= now + 24 * 3600 + 5);
        }
        _ => panic!(),
    }
}

#[test]
fn verify_rejects_wrong_code_and_invalid_address() {
    let req = VerifyOtpRequest { email: "user@example.com".into(), code: "000001".into() };
    let mut flow = match verify_otp(&req, &config(), &private_key()) {
        FlowStep::Continue(f, _) => f,
        _ => panic!(),
    };
    for reply in [StoreReply::Count(4)] {
        flow = match flow.step(reply) {
            FlowStep::Continue(f, _) => f,
            _ => panic!(),
        };
    }
    assert!(matches!(
        flow.step(StoreReply::MaybeText(Some("123456".into()))),
        FlowStep::Finished(Err(AppError::InvalidOtp))
    ));
    let req = VerifyOtpRequest { email: "bad".into(), code: "999999".into() };
    assert!(matches!(
        verify_otp(&req, &config(), &private_key()),
        FlowStep::Finished(Err(AppError::ValidationError(_)))
    ));
}

#[test]
fn accepted_code_with_unusable_key_is_an_internal_error() {
    let req = VerifyOtpRequest { email: "user@example.com".into(), code: "123456".into() };
    let mut flow = match verify_otp(&req, &config(), b"not a key") {
        FlowStep::Continue(f, _) => f,
        _ => panic!(),
    };
    for reply in [StoreReply::Count(2), StoreReply::MaybeText(Some("123456".into())), StoreReply::Done] {
        flow = match flow.step(reply) {
            FlowStep::Continue(f, _) => f,
            _ => panic!(),
        };
    }
    assert!(matches!(flow.step(StoreReply::Done), FlowStep::Finished(Err(AppError::InternalError(_)))));
}

#[test]
fn token_is_issued_for_any_subject_with_a_usable_key() {
    for email in ["a@b.co", "first.last@example.org"] {
        let reply = issue_token_at(email, 0, 1, &private_key()).ok().unwrap();
        let claims = claims_of(&reply.token);
        assert_eq!(claims["sub"], email);
        assert_eq!(claims["exp"], 3600);
    }
}

#[test]
fn token_expiry_stops_at_the_last_representable_second() {
    let last = 8_210_266_876_799i64;
    let reply = issue_token_at("a@b.co", last - 3600, 1, &private_key()).ok().unwrap();
    assert_eq!(claims_of(&reply.token)["exp"], last);
    assert!(matches!(
        issue_token_at("a@b.co", last - 3599, 1, &private_key()),
        Err(AppError::InternalError(_))
    ));
    assert!(matches!(
        issue_token_at("a@b.co", last + 1, 0, &private_key()),
        Err(AppError::InternalError(_))
    ));
}
